use toolcore::alphavantage::{AlphaVantageRequest, GlobalQuote, create_alphavantage};
use toolcore::context::{AgentInfo, Agents, CommandContext, EndGoals, LLM, MemorySystem};
use toolcore::dispatch::{CommandResult, InvocationOutcome, PendingInvocation, example_payload, invoke_feature, resume};
use toolcore::errors::{CommandNoArgError, NoToolStateError, ToolError};
use toolcore::feature::{CommandHandler, ToolFeature, ToolFeatureArgument, ToolFeatureType};
use toolcore::identity::StatefulTool;
use toolcore::lifecycle::{activate_all, create_http_client, cycle_create_context};
use toolcore::store::ToolStateStore;
use toolcore::value::ScriptValue;

fn agent() -> AgentInfo {
    AgentInfo {
        llm: LLM { model: "test-model".to_string() },
        observations: MemorySystem { entries: Vec::new() },
        reflections: MemorySystem { entries: Vec::new() },
    }
}

fn agents() -> Agents {
    Agents { static_agent: agent(), planner: agent(), dynamic: agent(), fast: agent() }
}

fn ready_http_config() -> ScriptValue {
    ScriptValue::Object(vec![("ready".to_string(), ScriptValue::Bool(true))])
}

fn av_config(key: &str) -> ScriptValue {
    ScriptValue::Object(vec![("api key".to_string(), ScriptValue::Text(key.to_string()))])
}

fn active_context(key: &str) -> CommandContext {
    let tools = vec![create_http_client(), create_alphavantage()];
    let configs = vec![ready_http_config(), av_config(key)];
    let store = activate_all(&tools, configs).unwrap();
    CommandContext {
        module_state_store: store,
        agents: agents(),
        plugins: tools,
        disabled_tools: Vec::new(),
        assets: Vec::new(),
    }
}

fn quote_args(symbol: &str) -> ScriptValue {
    ScriptValue::Object(vec![
        ("function".to_string(), ScriptValue::Text("GLOBAL_QUOTE".to_string())),
        ("symbol".to_string(), ScriptValue::Text(symbol.to_string())),
    ])
}

fn quote_response(price: &str) -> ScriptValue {
    let fields = vec![
        ("01. symbol", "AAPL"),
        ("02. open", "122.00"),
        ("03. high", "124.00"),
        ("04. low", "121.50"),
        ("05. price", price),
        ("06. volume", "100000"),
        ("07. latest trading day", "2024-01-02"),
        ("08. previous close", "121.90"),
        ("09. change", "1.55"),
        ("10. change percent", "1.27%"),
    ];
    let entries = fields
        .into_iter()
        .map(|(k, v)| (k.to_string(), ScriptValue::Text(v.to_string())))
        .collect::<Vec<_>>();
    ScriptValue::Object(vec![("Global Quote".to_string(), ScriptValue::Object(entries))])
}

#[test]
fn activation_in_order_activates_both() {
    let ctx = active_context("ABC123");
    assert!(ctx.module_state_store.get_state(StatefulTool::HttpClient).is_ok());
    assert!(ctx.module_state_store.get_state(StatefulTool::AlphaVantage).is_ok());
}

#[test]
fn activation_out_of_order_is_rejected() {
    let tools = vec![create_alphavantage()];
    let configs = vec![av_config("k")];
    let r = activate_all(&tools, configs);
    assert_eq!(
        r.err().unwrap(),
        ToolError::NoToolState(NoToolStateError(StatefulTool::HttpClient))
    );
}

#[test]
fn unconfigured_tool_opts_out() {
    let tools = vec![create_http_client(), create_alphavantage()];
    let configs = vec![ready_http_config(), ScriptValue::Null];
    let store = activate_all(&tools, configs).unwrap();
    assert!(store.get_state(StatefulTool::HttpClient).is_ok());
    assert_eq!(
        store.get_state(StatefulTool::AlphaVantage).err().unwrap(),
        ToolError::NoToolState(NoToolStateError(StatefulTool::AlphaVantage))
    );
}

#[test]
fn create_context_is_idempotent_without_mutation() {
    let mut ctx = active_context("k");
    let tool = create_alphavantage();
    let first = cycle_create_context(tool.cycle, &mut ctx, Some("previous")).unwrap();
    let second = cycle_create_context(tool.cycle, &mut ctx, Some("previous")).unwrap();
    assert_eq!(first, second);
    assert_eq!(first, None);
}

#[test]
fn quote_scenario_issues_one_exact_outbound_call() {
    let mut ctx = active_context("ABC123");
    let tool = create_alphavantage();
    let r = invoke_feature(&mut ctx, "AlphaVantage", &tool.features[0], &quote_args("AAPL"), false);
    let (request, pending) = match r.unwrap() {
        InvocationOutcome::Outbound(b, p) => (b, p),
        other => panic!("expected an outbound call, got {:?}", other),
    };
    assert_eq!(pending, PendingInvocation::AlphaVantageQuote);
    assert_eq!(request.url, "https://www.alphavantage.co/query");
    assert_eq!(
        request.params,
        vec![
            ("apikey".to_string(), "ABC123".to_string()),
            ("function".to_string(), "GLOBAL_QUOTE".to_string()),
            ("symbol".to_string(), "AAPL".to_string()),
        ]
    );
    let result = resume(pending, &quote_response("123.45")).unwrap();
    assert_eq!(result, CommandResult::Text("123.45".to_string()));
}

#[test]
fn no_state_means_no_tool_state_and_no_outbound_call() {
    let mut ctx = active_context("k");
    ctx.module_state_store = ToolStateStore::new();
    let tool = create_alphavantage();
    let r = invoke_feature(&mut ctx, "AlphaVantage", &tool.features[0], &quote_args("AAPL"), false);
    assert_eq!(
        r.err().unwrap(),
        ToolError::NoToolState(NoToolStateError(StatefulTool::AlphaVantage))
    );
}

#[test]
fn quote_without_transport_names_the_missing_dependency() {
    let mut ctx = active_context("k");
    let mut store = ToolStateStore::new();
    store.put_state(
        StatefulTool::AlphaVantage,
        toolcore::store::ToolState { id: StatefulTool::AlphaVantage, data: av_config("k") },
    );
    ctx.module_state_store = store;
    let tool = create_alphavantage();
    let r = invoke_feature(&mut ctx, "AlphaVantage", &tool.features[0], &quote_args("AAPL"), false);
    assert_eq!(
        r.err().unwrap(),
        ToolError::NoToolState(NoToolStateError(StatefulTool::HttpClient))
    );
}

#[test]
fn permission_gate_holds_until_authorized() {
    let mut ctx = active_context("ABC123");
    let feature = ToolFeature {
        name: "alphavantage_quote".to_string(),
        purpose: "Read ticker prices from AlphaVantage.".to_string(),
        args: vec![
            ToolFeatureArgument::new("function", "GLOBAL_QUOTE"),
            ToolFeatureArgument::new("symbol", "AAPL"),
        ],
        feature_type: ToolFeatureType::Action { needs_permission: true },
        run: CommandHandler::AlphaVantageQuote,
    };
    let store_before = ctx.module_state_store.0.len();
    let held = invoke_feature(&mut ctx, "AlphaVantage", &feature, &quote_args("AAPL"), false);
    assert_eq!(held.unwrap(), InvocationOutcome::Denied);
    assert_eq!(ctx.module_state_store.0.len(), store_before);
    let granted = invoke_feature(&mut ctx, "AlphaVantage", &feature, &quote_args("AAPL"), true);
    assert!(matches!(granted.unwrap(), InvocationOutcome::Outbound(_, _)));
}

#[test]
fn missing_argument_aborts_before_any_call() {
    let mut ctx = active_context("k");
    let tool = create_alphavantage();
    let args = ScriptValue::Object(vec![(
        "function".to_string(),
        ScriptValue::Text("GLOBAL_QUOTE".to_string()),
    )]);
    let r = invoke_feature(&mut ctx, "AlphaVantage", &tool.features[0], &args, false);
    assert_eq!(
        r.err().unwrap(),
        ToolError::MissingArgument(CommandNoArgError(
            "AlphaVantage".to_string(),
            "symbol".to_string()
        ))
    );
}

#[test]
fn example_payload_is_accepted_by_the_handler() {
    let mut ctx = active_context("ABC123");
    let tool = create_alphavantage();
    let payload = example_payload(&tool.features[0]);
    let r = invoke_feature(&mut ctx, "AlphaVantage", &tool.features[0], &payload, false);
    let request = match r.unwrap() {
        InvocationOutcome::Outbound(b, _) => b,
        other => panic!("expected an outbound call, got {:?}", other),
    };
    assert_eq!(
        request.params[2],
        ("symbol".to_string(), "AAPL".to_string())
    );
}

#[test]
fn incomplete_quote_response_is_an_opaque_failure() {
    let response = ScriptValue::Object(vec![(
        "Global Quote".to_string(),
        ScriptValue::Object(vec![(
            "01. symbol".to_string(),
            ScriptValue::Text("AAPL".to_string()),
        )]),
    )]);
    let r = resume(PendingInvocation::AlphaVantageQuote, &response);
    assert!(matches!(r.err().unwrap(), ToolError::Opaque(_)));
}

#[test]
fn global_quote_parse_reads_every_field() {
    let response = quote_response("123.45");
    let envelope = response.get("Global Quote").unwrap();
    let q = GlobalQuote::parse(envelope).unwrap();
    assert_eq!(q.symbol, "AAPL");
    assert_eq!(q.open_price, "122.00");
    assert_eq!(q.price, "123.45");
    assert_eq!(q.change_percent, "1.27%");
}

#[test]
fn alphavantage_request_parse_reads_symbol() {
    let r = AlphaVantageRequest::parse(&quote_args("MSFT")).unwrap();
    assert_eq!(r.symbol, "MSFT");
    assert_eq!(AlphaVantageRequest::parse(&ScriptValue::Null), None);
}

#[test]
fn endgoals_get_returns_selected_goal() {
    let goals = EndGoals {
        end_goal: 1,
        end_goals: vec!["first".to_string(), "second".to_string()],
    };
    assert_eq!(goals.get(), "second");
}

#[test]
fn agents_same_builds_four_roles_from_one_constructor() {
    let built = Agents::same(|| Ok(agent())).unwrap();
    assert_eq!(built.static_agent, agent());
    assert_eq!(built.fast, agent());
    let failed = Agents::same(|| Err(ToolError::Opaque("no model".to_string())));
    assert_eq!(failed.err().unwrap(), ToolError::Opaque("no model".to_string()));
}

#[test]
fn context_is_wf_rejects_duplicate_asset_names() {
    let mut ctx = active_context("k");
    assert!(ctx.is_wf());
    ctx.assets.push(("chart".to_string(), "blob-1".to_string()));
    ctx.assets.push(("chart".to_string(), "blob-2".to_string()));
    assert!(!ctx.is_wf());
}

#[test]
fn activation_files_exactly_what_each_hook_materializes() {
    let tools = vec![create_http_client(), create_alphavantage()];
    let configs = vec![ready_http_config(), av_config("k9")];
    let store = activate_all(&tools, configs).unwrap();
    assert_eq!(store.0.len(), 2);
    let av = store.get_state(StatefulTool::AlphaVantage).unwrap();
    assert_eq!(av.data.get_text("api key"), Some("k9".to_string()));
    assert_eq!(
        store.get_state(StatefulTool::HttpClient).unwrap().data,
        ready_http_config()
    );
}

#[test]
fn descriptor_declares_the_quote_feature() {
    let tool = create_alphavantage();
    assert_eq!(tool.id, StatefulTool::AlphaVantage);
    assert_eq!(tool.dependencies, vec![StatefulTool::HttpClient]);
    assert_eq!(tool.features.len(), 1);
    let feature = &tool.features[0];
    assert_eq!(feature.name, "alphavantage_quote");
    assert_eq!(feature.purpose, "Read ticker prices from AlphaVantage.");
    assert_eq!(feature.feature_type, ToolFeatureType::Resource);
    assert_eq!(feature.args.len(), 2);
    assert_eq!(feature.args[0].name, "function");
    assert_eq!(feature.args[0].example, "GLOBAL_QUOTE");
    assert_eq!(feature.args[1].name, "symbol");
    assert_eq!(feature.args[1].example, "AAPL");
}

#[test]
fn ask_alphavantage_builds_the_provider_request() {
    let mut ctx = active_context("ABC123");
    let req = AlphaVantageRequest { symbol: "AAPL".to_string() };
    let browse = toolcore::alphavantage::ask_alphavantage(&mut ctx, &req).unwrap();
    assert_eq!(browse.url, "https://www.alphavantage.co/query");
    assert_eq!(browse.params.len(), 3);
    assert_eq!(browse.params[0], ("apikey".to_string(), "ABC123".to_string()));
}

#[test]
fn feature_box_clone_copies_every_field() {
    let tool = create_alphavantage();
    let copy = tool.features[0].box_clone();
    assert_eq!(copy, tool.features[0]);
}
