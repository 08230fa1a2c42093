use context_engine::effect::{Effect, Scope};
use context_engine::message::{CompactionPolicy, Content, Message, Role};
use context_engine::react::{effect_tool_schemas, parse_scope, try_as_effect};
use context_engine::react_run::{apply_context_commands, ContextCommand, ContextSnapshot};

fn make_user_msg(text: &str) -> Message {
    Message::new(Role::User, Content::text(text))
}

fn make_pinned_msg(text: &str) -> Message {
    Message::pinned(Role::User, Content::text(text))
}

#[test]
fn parse_scope_variants() {
    assert_eq!(parse_scope("global"), Scope::Global);
    assert_eq!(parse_scope("session:abc"), Scope::Session("abc".to_string()));
    assert_eq!(parse_scope("workflow:wf1"), Scope::Workflow("wf1".to_string()));
    match parse_scope("other") {
        Scope::Custom(s) => assert_eq!(s, "other"),
        _ => panic!("expected Custom"),
    }
}

#[test]
fn effect_tool_schemas_all_present() {
    let schemas = effect_tool_schemas();
    let names: Vec<&str> = schemas.iter().map(|s| s.name.as_str()).collect();
    assert!(names.contains(&"write_memory"));
    assert!(names.contains(&"delete_memory"));
    assert!(names.contains(&"delegate"));
    assert!(names.contains(&"handoff"));
    assert!(names.contains(&"signal"));
    assert_eq!(schemas.len(), 5);
}

#[test]
fn test_pin_command() {
    let mut msgs = vec![make_user_msg("first"), make_user_msg("second")];
    apply_context_commands(&mut msgs, vec![ContextCommand::Pin { message_index: 0 }]);
    assert_eq!(msgs[0].meta.policy, CompactionPolicy::Pinned);
    assert_eq!(msgs[1].meta.policy, CompactionPolicy::Normal);
}

#[test]
fn test_pin_out_of_bounds_is_noop() {
    let mut msgs = vec![make_user_msg("only")];
    apply_context_commands(&mut msgs, vec![ContextCommand::Pin { message_index: 99 }]);
    assert_eq!(msgs.len(), 1);
    assert_eq!(msgs[0].meta.policy, CompactionPolicy::Normal);
}

#[test]
fn test_drop_oldest_skips_pinned() {
    let mut msgs = vec![
        make_user_msg("m0"),
        make_pinned_msg("pinned"),
        make_user_msg("m2"),
        make_user_msg("m3"),
    ];
    apply_context_commands(&mut msgs, vec![ContextCommand::DropOldest { count: 2 }]);
    assert_eq!(msgs.len(), 2);
    assert_eq!(msgs[0].meta.policy, CompactionPolicy::Pinned);
    assert_eq!(msgs[1].content.as_text(), "m3");
}

#[test]
fn test_drop_oldest_count_exceeds_droppable() {
    let mut msgs = vec![make_pinned_msg("pinned"), make_user_msg("normal")];
    apply_context_commands(&mut msgs, vec![ContextCommand::DropOldest { count: 5 }]);
    assert_eq!(msgs.len(), 1);
    assert_eq!(msgs[0].meta.policy, CompactionPolicy::Pinned);
}

#[test]
fn test_clear_working_keeps_pinned() {
    let mut msgs = vec![make_user_msg("normal1"), make_pinned_msg("pinned"), make_user_msg("normal2")];
    apply_context_commands(&mut msgs, vec![ContextCommand::ClearWorking]);
    assert_eq!(msgs.len(), 1);
    assert_eq!(msgs[0].meta.policy, CompactionPolicy::Pinned);
}

#[test]
fn context_snapshot_empty_before_execute() {
    let snap = ContextSnapshot::of(&Vec::new(), 0);
    assert!(snap.messages.is_empty());
    assert_eq!(snap.token_count, 0);
    assert_eq!(snap.pinned_count, 0);
    assert_eq!(snap.last_compaction_removed, 0);
}

#[test]
fn context_snapshot_pinned_count() {
    let ctx = vec![make_user_msg("normal"), make_pinned_msg("pinned1"), make_pinned_msg("pinned2")];
    let snap = ContextSnapshot::of(&ctx, 0);
    assert_eq!(snap.messages.len(), 3);
    assert_eq!(snap.pinned_count, 2);
}

#[test]
fn context_snapshot_last_compaction_removed_zero_initially() {
    assert_eq!(ContextSnapshot::of(&Vec::new(), 0).last_compaction_removed, 0);
}

#[test]
fn context_snapshot_clone_and_debug() {
    let snap = ContextSnapshot::of(&Vec::new(), 0);
    let cloned = snap.clone();
    assert_eq!(cloned.messages.len(), snap.messages.len());
    let _ = format!("{:?}", snap);
}

#[test]
fn effect_tool_write_memory_input_becomes_effect() {
    let input: serde_json::Value =
        serde_json::from_str(r#"{"scope": "global", "key": "fact", "value": 42}"#).unwrap();
    match try_as_effect("write_memory", &input) {
        Some(Effect::WriteMemory { scope, key, value }) => {
            assert_eq!(scope, Scope::Global);
            assert_eq!(key, "fact");
            assert_eq!(value, serde_json::Value::from(42));
        },
        other => panic!("expected WriteMemory, got {other:?}"),
    }
}

#[test]
fn effect_tool_missing_member_declares_nothing() {
    let input: serde_json::Value = serde_json::from_str(r#"{"key": "fact"}"#).unwrap();
    assert!(try_as_effect("delete_memory", &input).is_none());
    assert!(try_as_effect("not_an_effect", &input).is_none());
}

#[test]
fn effect_tool_defaults_for_optional_members() {
    let input: serde_json::Value = serde_json::from_str(r#"{"agent": "helper"}"#).unwrap();
    match try_as_effect("delegate", &input) {
        Some(Effect::Delegate { agent, message }) => {
            assert_eq!(agent, "helper");
            assert_eq!(message, "");
        },
        other => panic!("expected Delegate, got {other:?}"),
    }
    match try_as_effect("handoff", &input) {
        Some(Effect::Handoff { agent, state }) => {
            assert_eq!(agent, "helper");
            assert!(state.is_null());
        },
        other => panic!("expected Handoff, got {other:?}"),
    }
    let signal: serde_json::Value = serde_json::from_str(r#"{"target": "wf-9"}"#).unwrap();
    match try_as_effect("signal", &signal) {
        Some(Effect::Signal { target, signal_type, data }) => {
            assert_eq!(target, "wf-9");
            assert_eq!(signal_type, "default");
            assert!(data.is_null());
        },
        other => panic!("expected Signal, got {other:?}"),
    }
}
