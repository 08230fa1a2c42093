use context_engine::error::{map_engine_error, EngineError, OperatorError, ProviderError, ToolError};
use context_engine::operator::ExitReason;

#[test]
fn exit_keeps_its_payload_in_the_halt_reason() {
    let err = EngineError::Exit { outcome: ExitReason::Custom("x".to_string()), detail: "d".to_string() };
    assert_eq!(map_engine_error(err), OperatorError::Halted { reason: "Custom(\"x\"): d".to_string() });
    let err = EngineError::Exit {
        outcome: ExitReason::SafetyStop { reason: "filter".to_string() },
        detail: "stopped".to_string(),
    };
    assert_eq!(
        map_engine_error(err),
        OperatorError::Halted { reason: "SafetyStop { reason: \"filter\" }: stopped".to_string() }
    );
    let err = EngineError::Exit {
        outcome: ExitReason::InterceptorHalt { reason: "a \"q\"".to_string() },
        detail: "d".to_string(),
    };
    assert_eq!(
        map_engine_error(err),
        OperatorError::Halted { reason: "InterceptorHalt { reason: \"a \\\"q\\\"\" }: d".to_string() }
    );
    let err = EngineError::Exit { outcome: ExitReason::MaxTurns, detail: "limit".to_string() };
    assert_eq!(map_engine_error(err), OperatorError::Halted { reason: "MaxTurns: limit".to_string() });
}

#[test]
fn other_engine_errors_are_classified() {
    assert_eq!(
        map_engine_error(EngineError::Halted { reason: "r".to_string() }),
        OperatorError::Halted { reason: "r".to_string() }
    );
    assert_eq!(
        map_engine_error(EngineError::Custom("boom".to_string())),
        OperatorError::Other("boom".to_string())
    );
    match map_engine_error(EngineError::Tool(ToolError::NotFound("calc".to_string()))) {
        OperatorError::SubDispatch { operator, .. } => assert_eq!(operator, "tool:calc"),
        other => panic!("unexpected {other:?}"),
    }
    match map_engine_error(EngineError::Provider(ProviderError { message: "m".to_string(), retryable: true })) {
        OperatorError::Model { retryable, .. } => assert!(retryable),
        other => panic!("unexpected {other:?}"),
    }
}
