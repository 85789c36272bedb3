use chrondb::{
    close_step, delete_result, dispatch_command, get_result, history_result, isolate_result,
    last_error_or, list_by_prefix_result, list_by_table_result, open_result, optional_arg,
    parse_document, put_command, put_result, query_command, query_result, replay_commands,
    serialize_document, validate_command, validate_open_paths, ChronDBError,
    Command, NativeOutcome, Reply,
};

fn doc(text: &str) -> serde_json::Value {
    serde_json::from_str(text).unwrap()
}

#[test]
fn test_ffi_worker_state_optional_cstring_with_some() {
    let result = optional_arg(Some("test"));
    assert!(result.is_ok());
    assert!(result.unwrap().is_some());
}

#[test]
fn test_ffi_worker_state_optional_cstring_with_none() {
    let result = optional_arg(None);
    assert!(result.is_ok());
    assert!(result.unwrap().is_none());
}

#[test]
fn test_ffi_worker_state_optional_cstring_with_null_byte() {
    let result = optional_arg(Some("test\0string"));
    assert!(result.is_err());

    match result {
        Err(ChronDBError::OperationFailed(msg)) => {
            assert!(msg.contains("nul"));
        }
        Err(other) => panic!("Expected OperationFailed, got: {}", other.message()),
        Ok(_) => panic!("Expected error but got Ok"),
    }
}

#[test]
fn test_validate_command_accepts_clean_args() {
    let cmd = Command::Put {
        id: "user:1".to_string(),
        doc: "{\"a\":1}".to_string(),
        branch: Some("main".to_string()),
    };
    assert!(validate_command(&cmd).is_ok());
}

#[test]
fn test_validate_command_rejects_nul_in_branch() {
    let cmd = Command::Get { id: "user:1".to_string(), branch: Some("ma\0in".to_string()) };
    match validate_command(&cmd) {
        Err(ChronDBError::OperationFailed(msg)) => assert!(msg.contains("nul")),
        other => panic!("Expected OperationFailed, got: {:?}", other),
    }
}

#[test]
fn test_put_command_serializes_document() {
    let d = doc("{\"name\":\"Alice\",\"age\":30}");
    let cmd = put_command("user:1", &d, None).unwrap();
    match cmd {
        Command::Put { id, doc: text, branch } => {
            assert_eq!(id, "user:1");
            assert_eq!(doc(&text), d);
            assert!(branch.is_none());
        }
        _ => panic!("Expected a put command"),
    }
}

#[test]
fn test_query_command_serializes_query() {
    let q = doc("{\"field\":\"name\"}");
    let cmd = query_command(&q, Some("main")).unwrap();
    match cmd {
        Command::Query { query, branch } => {
            assert_eq!(doc(&query), q);
            assert_eq!(branch.as_deref(), Some("main"));
        }
        _ => panic!("Expected a query command"),
    }
}

#[test]
fn test_parse_document_round_trip() {
    let d = doc("{\"name\":\"Alice\",\"age\":30}");
    let text = serialize_document(&d).unwrap();
    let back = parse_document(&text).unwrap();
    assert_eq!(back, d);
}

#[test]
fn test_put_result_parses_payload() {
    let stored = put_result(Some("{\"name\":\"Alice\"}".to_string()), None).unwrap();
    assert_eq!(stored, doc("{\"name\":\"Alice\"}"));
}

#[test]
fn test_put_result_null_uses_last_error() {
    let r = put_result(None, Some("engine says no".to_string()));
    match r {
        Err(ChronDBError::OperationFailed(msg)) => assert_eq!(msg, "engine says no"),
        other => panic!("Expected OperationFailed, got: {:?}", other),
    }
    let r2 = put_result(None, None);
    match r2 {
        Err(ChronDBError::OperationFailed(msg)) => assert_eq!(msg, "null result"),
        other => panic!("Expected OperationFailed, got: {:?}", other),
    }
}

#[test]
fn test_put_result_malformed_payload_is_json_error() {
    let r = put_result(Some("not json".to_string()), None);
    match r {
        Err(ChronDBError::JsonError(msg)) => assert!(!msg.is_empty()),
        other => panic!("Expected JsonError, got: {:?}", other),
    }
}

#[test]
fn test_get_result_null_is_not_found() {
    let r = get_result(None);
    assert!(matches!(r, Err(ChronDBError::NotFound)));
}

#[test]
fn test_list_results_null_is_empty_collection() {
    let empty = serde_json::Value::Array(Vec::new());
    assert_eq!(list_by_prefix_result(None).unwrap(), empty);
    assert_eq!(list_by_table_result(None).unwrap(), empty);
    assert_eq!(history_result(None).unwrap(), empty);
}

#[test]
fn test_list_result_parses_payload() {
    let r = list_by_prefix_result(Some("[{\"id\":\"user:1\"}]".to_string())).unwrap();
    assert_eq!(r, doc("[{\"id\":\"user:1\"}]"));
}

#[test]
fn test_query_result_null_is_operation_failed() {
    let r = query_result(None, Some("no native result".to_string()));
    match r {
        Err(ChronDBError::OperationFailed(msg)) => assert_eq!(msg, "no native result"),
        other => panic!("Expected OperationFailed, got: {:?}", other),
    }
    let r2 = query_result(None, None);
    match r2 {
        Err(ChronDBError::OperationFailed(msg)) => assert_eq!(msg, "query failed"),
        other => panic!("Expected OperationFailed, got: {:?}", other),
    }
}

#[test]
fn test_delete_result_codes() {
    assert!(matches!(delete_result(0, None), Ok(())));
    assert!(matches!(delete_result(1, None), Err(ChronDBError::NotFound)));
    match delete_result(42, Some("diag".to_string())) {
        Err(ChronDBError::OperationFailed(msg)) => assert_eq!(msg, "diag"),
        other => panic!("Expected OperationFailed, got: {:?}", other),
    }
    match delete_result(-7, None) {
        Err(ChronDBError::OperationFailed(msg)) => assert_eq!(msg, "delete failed"),
        other => panic!("Expected OperationFailed, got: {:?}", other),
    }
}

#[test]
fn test_last_error_or_fallback() {
    match last_error_or(Some("boom".to_string()), "fallback") {
        ChronDBError::OperationFailed(msg) => assert_eq!(msg, "boom"),
        other => panic!("Expected OperationFailed, got: {:?}", other),
    }
    match last_error_or(None, "fallback") {
        ChronDBError::OperationFailed(msg) => assert_eq!(msg, "fallback"),
        other => panic!("Expected OperationFailed, got: {:?}", other),
    }
}

#[test]
fn test_put_then_get_round_trip_scenario() {
    let alice = "{\"name\":\"Alice\",\"age\":30}";
    let expected = doc(alice);

    let stored = put_result(Some(alice.to_string()), None).unwrap();
    assert_eq!(stored, expected);

    let got = get_result(Some(alice.to_string())).unwrap();
    assert_eq!(got, expected);

    assert!(matches!(delete_result(0, None), Ok(())));

    let after = get_result(None);
    assert!(matches!(after, Err(ChronDBError::NotFound)));
}

#[test]
fn test_isolate_and_open_results() {
    assert!(isolate_result(0).is_ok());
    assert!(matches!(isolate_result(1), Err(ChronDBError::IsolateCreationFailed)));

    let s = open_result(5, None).unwrap();
    assert_eq!(s.handle, 5);
    assert!(s.has_isolate);

    match open_result(-1, Some("bad paths".to_string())) {
        Err(ChronDBError::OpenFailed(msg)) => assert_eq!(msg, "bad paths"),
        other => panic!("Expected OpenFailed, got: {:?}", other),
    }
    match open_result(-1, None) {
        Err(ChronDBError::OpenFailed(msg)) => assert_eq!(msg, ""),
        other => panic!("Expected OpenFailed, got: {:?}", other),
    }
}

#[test]
fn test_validate_open_paths_rejects_nul() {
    assert!(validate_open_paths("/tmp/data", "/tmp/index").is_ok());
    match validate_open_paths("/tmp/da\0ta", "/tmp/index") {
        Err(ChronDBError::OpenFailed(msg)) => assert!(msg.contains("nul")),
        other => panic!("Expected OpenFailed, got: {:?}", other),
    }
}

#[test]
fn test_close_step_is_idempotent() {
    let mut s = open_result(3, None).unwrap();

    let first = close_step(&mut s);
    assert!(first.close_resource);
    assert!(first.tear_down);
    assert_eq!(s.handle, -1);
    assert!(!s.has_isolate);

    let second = close_step(&mut s);
    assert!(!second.close_resource);
    assert!(!second.tear_down);
    assert_eq!(s.handle, -1);
    assert!(!s.has_isolate);
}

#[test]
fn test_dispatch_rejects_nul_without_native_outcome() {
    let cmd = Command::Put {
        id: "bad\0id".to_string(),
        doc: "{}".to_string(),
        branch: None,
    };
    let out = NativeOutcome::Text { payload: Some("{\"x\":1}".to_string()), last_err: None };
    match dispatch_command(&cmd, &out) {
        Reply::Doc(Err(ChronDBError::OperationFailed(msg))) => assert!(msg.contains("nul")),
        other => panic!("Expected the local rejection, got: {:?}", other),
    }
}

#[test]
fn test_dispatch_last_error() {
    let rep = dispatch_command(
        &Command::LastError,
        &NativeOutcome::ErrText { last_err: Some("diag".to_string()) },
    );
    match rep {
        Reply::Text(Some(msg)) => assert_eq!(msg, "diag"),
        other => panic!("Expected the diagnostic text, got: {:?}", other),
    }
}

#[test]
fn test_replay_interleaved_callers_in_order() {
    let mut cmds: Vec<Command> = Vec::new();
    let mut outs: Vec<NativeOutcome> = Vec::new();
    for caller in 0..8 {
        cmds.push(Command::Put {
            id: format!("user:{}", caller),
            doc: format!("{{\"caller\":{}}}", caller),
            branch: None,
        });
        outs.push(NativeOutcome::Text {
            payload: Some(format!("{{\"caller\":{}}}", caller)),
            last_err: None,
        });
        cmds.push(Command::Get { id: format!("user:{}", caller), branch: None });
        outs.push(NativeOutcome::Text {
            payload: Some(format!("{{\"caller\":{}}}", caller)),
            last_err: None,
        });
    }

    let replies = replay_commands(&cmds, &outs);
    assert_eq!(replies.len(), 16);
    for (i, rep) in replies.iter().enumerate() {
        let caller = (i / 2) as i64;
        match rep {
            Reply::Doc(Ok(v)) => assert_eq!(v["caller"], serde_json::Value::from(caller)),
            other => panic!("Expected a document reply, got: {:?}", other),
        }
    }
}

#[test]
fn test_replay_stops_at_shutdown() {
    let cmds = vec![
        Command::Get { id: "a".to_string(), branch: None },
        Command::Shutdown,
        Command::Get { id: "b".to_string(), branch: None },
    ];
    let outs = vec![
        NativeOutcome::Text { payload: None, last_err: None },
        NativeOutcome::ErrText { last_err: None },
        NativeOutcome::Text { payload: None, last_err: None },
    ];
    let replies = replay_commands(&cmds, &outs);
    assert_eq!(replies.len(), 1);
    assert!(matches!(&replies[0], Reply::Doc(Err(ChronDBError::NotFound))));
}
