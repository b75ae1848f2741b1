use toolcore::errors::{NoToolStateError, ToolError, ToolStateNoInvoke};
use toolcore::identity::{StatefulTool, tool_name};
use toolcore::store::{
    BrowseRequest, MethodOutcome, ToolState, ToolStateStore, browse_args, invoke,
    parse_browse_args,
};
use toolcore::value::{ScriptValue, str_eq};

fn av_state(key: &str) -> ToolState {
    ToolState {
        id: StatefulTool::AlphaVantage,
        data: ScriptValue::Object(vec![(
            "api key".to_string(),
            ScriptValue::Text(key.to_string()),
        )]),
    }
}

fn http_state() -> ToolState {
    ToolState {
        id: StatefulTool::HttpClient,
        data: ScriptValue::Object(vec![("ready".to_string(), ScriptValue::Bool(true))]),
    }
}

#[test]
fn str_eq_decides_equality() {
    assert!(str_eq("api key", "api key"));
    assert!(!str_eq("api key", "api_key"));
}

#[test]
fn object_get_finds_first_binding() {
    let v = ScriptValue::Object(vec![
        ("a".to_string(), ScriptValue::Int(1)),
        ("a".to_string(), ScriptValue::Int(2)),
        ("b".to_string(), ScriptValue::Int(3)),
    ]);
    assert_eq!(v.get("a"), Some(&ScriptValue::Int(1)));
    assert_eq!(v.get("b"), Some(&ScriptValue::Int(3)));
    assert_eq!(v.get("c"), None);
    assert_eq!(ScriptValue::Null.get("a"), None);
}

#[test]
fn get_text_requires_text() {
    let v = ScriptValue::Object(vec![
        ("t".to_string(), ScriptValue::Text("x".to_string())),
        ("n".to_string(), ScriptValue::Int(7)),
    ]);
    assert_eq!(v.get_text("t"), Some("x".to_string()));
    assert_eq!(v.get_text("n"), None);
}

#[test]
fn tool_name_spells_identity() {
    assert_eq!(tool_name(StatefulTool::AlphaVantage), "AlphaVantage");
    assert_eq!(tool_name(StatefulTool::HttpClient), "HttpClient");
}

#[test]
fn get_state_missing_fails_with_no_tool_state() {
    let store = ToolStateStore::new();
    let r = store.get_state(StatefulTool::Google);
    assert_eq!(
        r.err().unwrap(),
        ToolError::NoToolState(NoToolStateError(StatefulTool::Google))
    );
}

#[test]
fn call_method_missing_fails_with_no_tool_state() {
    let mut store = ToolStateStore::new();
    let r = store.call_method(StatefulTool::Wolfram, "anything", &ScriptValue::Null);
    assert_eq!(
        r.err().unwrap(),
        ToolError::NoToolState(NoToolStateError(StatefulTool::Wolfram))
    );
}

#[test]
fn put_state_then_get_state() {
    let mut store = ToolStateStore::new();
    store.put_state(StatefulTool::AlphaVantage, av_state("k1"));
    let st = store.get_state(StatefulTool::AlphaVantage).unwrap();
    assert_eq!(st, &av_state("k1"));
}

#[test]
fn put_state_replaces_previous_entry() {
    let mut store = ToolStateStore::new();
    store.put_state(StatefulTool::AlphaVantage, av_state("k1"));
    store.put_state(StatefulTool::AlphaVantage, av_state("k2"));
    assert_eq!(store.0.len(), 1);
    let st = store.get_state(StatefulTool::AlphaVantage).unwrap();
    assert_eq!(st, &av_state("k2"));
}

#[test]
fn call_method_reads_api_key() {
    let mut store = ToolStateStore::new();
    store.put_state(StatefulTool::AlphaVantage, av_state("SECRET"));
    let r = store.call_method(StatefulTool::AlphaVantage, "get api key", &ScriptValue::Null);
    assert_eq!(
        r.unwrap(),
        MethodOutcome::Value(ScriptValue::Text("SECRET".to_string()))
    );
}

#[test]
fn call_method_unsupported_fails_with_no_such_invocation() {
    let mut store = ToolStateStore::new();
    store.put_state(StatefulTool::AlphaVantage, av_state("k"));
    let r = store.call_method(StatefulTool::AlphaVantage, "frobnicate", &ScriptValue::Null);
    assert_eq!(
        r.err().unwrap(),
        ToolError::NoSuchInvocation(ToolStateNoInvoke(
            "AlphaVantage".to_string(),
            "frobnicate".to_string()
        ))
    );
}

#[test]
fn browse_method_decodes_request() {
    let mut store = ToolStateStore::new();
    store.put_state(StatefulTool::HttpClient, http_state());
    let req = BrowseRequest {
        url: "https://example.test/q".to_string(),
        params: vec![("a".to_string(), "1".to_string())],
    };
    let payload = browse_args(&req);
    let r = store.call_method(StatefulTool::HttpClient, "browse", &payload);
    assert_eq!(r.unwrap(), MethodOutcome::Outbound(req));
}

#[test]
fn browse_args_round_trip() {
    let req = BrowseRequest {
        url: "https://example.test".to_string(),
        params: vec![
            ("apikey".to_string(), "k".to_string()),
            ("symbol".to_string(), "AAPL".to_string()),
        ],
    };
    let encoded = browse_args(&req);
    assert_eq!(parse_browse_args(&encoded), Some(req));
}

#[test]
fn error_messages_match_the_display_lines() {
    let no_invoke = ToolStateNoInvoke("AlphaVantage".to_string(), "frobnicate".to_string());
    assert_eq!(
        no_invoke.message(),
        "the 'AlphaVantage' plugin's data does not have 'frobnicate' invocation."
    );
    let no_arg = toolcore::errors::CommandNoArgError("AlphaVantage".to_string(), "symbol".to_string());
    assert_eq!(
        no_arg.message(),
        "the 'AlphaVantage' tool did not receive the 'symbol' argument."
    );
    let no_state = NoToolStateError(StatefulTool::Google);
    assert_eq!(no_state.message(), "could not find plugin data for plugin \"Google\"");
    assert_eq!(ToolError::NoToolState(no_state).message(), "could not find plugin data for plugin \"Google\"");
    assert_eq!(ToolError::Opaque("boom".to_string()).message(), "boom");
}

#[test]
fn is_wf_accepts_a_store_built_by_put_state() {
    let mut store = ToolStateStore::new();
    assert!(store.is_wf());
    store.put_state(StatefulTool::AlphaVantage, av_state("k"));
    store.put_state(StatefulTool::HttpClient, http_state());
    assert!(store.is_wf());
}

#[test]
fn is_wf_rejects_a_malformed_store() {
    let keyless = ToolStateStore(vec![toolcore::store::StoreEntry {
        id: StatefulTool::AlphaVantage,
        state: ToolState { id: StatefulTool::AlphaVantage, data: ScriptValue::Null },
    }]);
    assert!(!keyless.is_wf());
    let misfiled = ToolStateStore(vec![toolcore::store::StoreEntry {
        id: StatefulTool::Google,
        state: http_state(),
    }]);
    assert!(!misfiled.is_wf());
    let duplicated = ToolStateStore(vec![
        toolcore::store::StoreEntry { id: StatefulTool::HttpClient, state: http_state() },
        toolcore::store::StoreEntry { id: StatefulTool::HttpClient, state: http_state() },
    ]);
    assert!(!duplicated.is_wf());
}

#[test]
fn invoke_rejects_unregistered_method() {
    let st = http_state();
    let r = invoke(&st, "get api key", &ScriptValue::Null);
    assert_eq!(
        r.err().unwrap(),
        ToolError::NoSuchInvocation(ToolStateNoInvoke(
            "HttpClient".to_string(),
            "get api key".to_string()
        ))
    );
}
