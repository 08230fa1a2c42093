use context_engine::cognitive::{
    CognitiveState, CompressCognitiveStateConfig, Entity, QualifyRecallConfig, RecalledArtifact,
    Relation,
};
use context_engine::infer::ToolSchema;
use context_engine::memory::{ConstructNoteConfig, EvolveMemoryConfig, LinkGenerationConfig};
use context_engine::message::{Content, Message, Role};
use context_engine::procedural::{DistillProcedureConfig, RecallProcedureConfig};
use context_engine::react_loop::visible_tools;

fn schema(name: &str) -> ToolSchema {
    ToolSchema {
        name: name.to_string(),
        description: "stub".to_string(),
        input_schema: serde_json::Value::Null,
    }
}

fn names(tools: &[ToolSchema]) -> Vec<String> {
    tools.iter().map(|t| t.name.clone()).collect()
}

#[test]
fn default_ccs_is_empty() {
    let ccs = CognitiveState::default();
    assert!(ccs.episodic_trace.is_empty());
    assert!(ccs.focal_entities.is_empty());
    assert!(ccs.constraints.is_empty());
    assert!(ccs.goal.is_empty());
}

#[test]
fn entity_constructor_works() {
    let e = Entity::new("server-1", "machine");
    assert_eq!(e.name, "server-1");
    assert_eq!(e.entity_type, "machine");
}

#[test]
fn relation_constructor_works() {
    let r = Relation::new("A", "B", "depends_on");
    assert_eq!(r.from, "A");
    assert_eq!(r.to, "B");
    assert_eq!(r.relation, "depends_on");
}

#[test]
fn compress_config_builds_request_with_schema() {
    let config = CompressCognitiveStateConfig::default();
    let messages = vec![Message::new(Role::User, Content::text("Deploy to staging"))];
    let request = config.build_request(&messages, None, &[]);
    assert!(request.system.is_some());
    let sys = request.system.as_ref().unwrap();
    assert!(sys.contains("episodic_trace"));
    assert!(sys.contains("semantic_gist"));
}

#[test]
fn compress_config_includes_previous_ccs() {
    let config = CompressCognitiveStateConfig::default();
    let prev = "{\n  \"goal\": \"migrate DB\"\n}";
    let request = config.build_request(&[], Some(prev), &[]);
    let text = request.messages[0].text_content();
    assert!(text.contains("migrate DB"));
}

#[test]
fn construct_note_builds_request() {
    let config = ConstructNoteConfig::default();
    let messages = vec![Message::new(Role::User, Content::text("deploy to prod"))];
    let req = config.build_request(&messages);
    assert!(req.system.is_some());
    assert!(req.messages[0].text_content().contains("deploy to prod"));
}

#[test]
fn link_generation_builds_request_with_notes() {
    let config = LinkGenerationConfig::default();
    let new_note = "{\n  \"key\": \"note:new\",\n  \"content\": \"new content\"\n}";
    let existing = vec!["{\n  \"key\": \"note:existing\",\n  \"content\": \"existing content\"\n}".to_string()];
    let req = config.build_request(new_note, &existing);
    assert!(req.system.is_some());
    let text = req.messages[0].text_content();
    assert!(text.contains("note:new"), "new note key missing");
    assert!(text.contains("note:existing"), "existing note key missing");
}

#[test]
fn evolve_memory_request_shows_both_notes() {
    let config = EvolveMemoryConfig::default();
    let req = config.build_request("{\"key\": \"note:a\"}", "{\"key\": \"note:b\"}");
    assert_eq!(req.max_tokens, Some(1024));
    assert_eq!(
        req.messages[0].text_content(),
        "## New Note\n{\"key\": \"note:a\"}\n\n## Existing Note\n{\"key\": \"note:b\"}"
    );
}

#[test]
fn distill_builds_request() {
    let config = DistillProcedureConfig::default();
    let trace = vec![Message::new(Role::User, Content::text("run tool X"))];
    let req = config.build_request(&trace);
    assert!(req.system.is_some());
    assert!(req.messages[0].text_content().contains("run tool X"));
}

#[test]
fn recall_build_query_returns_last_user_message() {
    let config = RecallProcedureConfig::default();
    let messages = vec![
        Message::new(Role::User, Content::text("first")),
        Message::new(Role::Assistant, Content::text("response")),
        Message::new(Role::User, Content::text("deploy to staging")),
    ];
    let query = config.build_query(&messages);
    assert_eq!(query, "deploy to staging");
}

#[test]
fn recall_build_query_without_user_message_is_empty() {
    let config = RecallProcedureConfig::default();
    let messages = vec![Message::new(Role::Assistant, Content::text("response"))];
    assert_eq!(config.build_query(&messages), "");
}

#[test]
fn build_request_includes_ccs_and_candidates() {
    let config = QualifyRecallConfig::default();
    let ccs = "{\n  \"goal\": \"migrate production database\",\n  \"episodic_trace\": \"User confirmed backup window\"\n}";
    let candidates = vec![
        RecalledArtifact::new("art:1", "Database backup completed at 02:00 UTC"),
        RecalledArtifact::new("art:2", "Unrelated marketing report Q3"),
    ];

    let request = config.build_request(ccs, &candidates);

    assert!(request.system.is_some());
    let sys = request.system.as_ref().unwrap();
    assert!(sys.contains("approved"));

    let text = request.messages[0].text_content();
    assert!(text.contains("migrate production database"), "CCS goal missing");
    assert!(text.contains("art:1"), "candidate key art:1 missing");
    assert!(text.contains("Database backup completed"), "candidate snippet missing");
    assert!(text.contains("art:2"), "candidate key art:2 missing");
}

#[test]
fn allowed_operators_filter_correctness() {
    let tools = vec![schema("tool_a"), schema("tool_b")];
    let visible = visible_tools(&tools, &Some(vec!["tool_a".to_string()]));
    assert_eq!(names(&visible), vec!["tool_a".to_string()]);
}

#[test]
fn allowed_operators_and_combines_with_existing_filter() {
    // The existing filter already hid tool_a; tool_c is not allowed.
    let after_existing = vec![schema("tool_b"), schema("tool_c")];
    let visible = visible_tools(&after_existing, &Some(vec!["tool_a".to_string(), "tool_b".to_string()]));
    assert_eq!(names(&visible), vec!["tool_b".to_string()]);
}

#[test]
fn allowed_operators_empty_list_blocks_all() {
    let tools = vec![schema("tool_a")];
    let visible = visible_tools(&tools, &Some(vec![]));
    assert!(visible.is_empty());
}

#[test]
fn no_allowed_list_shows_every_tool() {
    let tools = vec![schema("tool_a"), schema("tool_b")];
    let visible = visible_tools(&tools, &None);
    assert_eq!(names(&visible), vec!["tool_a".to_string(), "tool_b".to_string()]);
}

#[test]
fn parse_response_handles_clean_json() {
    let config = QualifyRecallConfig::default();
    let response = r#"{"approved": ["art:1", "art:3"]}"#;
    let approved = config.parse_response(response).unwrap();
    assert_eq!(approved, vec!["art:1", "art:3"]);
}

#[test]
fn parse_response_handles_fenced_json() {
    let config = QualifyRecallConfig::default();
    let response = "```json\n{\"approved\": [\"art:1\"]}\n```";
    let approved = config.parse_response(response).unwrap();
    assert_eq!(approved, vec!["art:1"]);
}

#[test]
fn parse_response_handles_empty_approved_list() {
    let config = QualifyRecallConfig::default();
    let response = r#"{"approved": []}"#;
    let approved = config.parse_response(response).unwrap();
    assert!(approved.is_empty());
}

#[test]
fn parse_response_rejects_invalid_json() {
    let config = QualifyRecallConfig::default();
    let result = config.parse_response("not json at all");
    assert!(result.is_err());
    let err = result.unwrap_err().to_text();
    assert!(err.contains("failed to parse CCS"));
}

#[test]
fn parse_response_rejects_missing_or_mistyped_list() {
    let config = QualifyRecallConfig::default();
    assert!(config.parse_response(r#"{"other": []}"#).is_err());
    assert!(config.parse_response(r#"{"approved": [1, 2]}"#).is_err());
}
