use vstd::prelude::*;
use crate::context::CommandContext;
use crate::dispatch::{CommandResult, InvocationOutcome, PendingInvocation};
use crate::errors::{NoToolStateError, ToolError};
use crate::feature::{CommandHandler, Tool, ToolCycle, ToolFeature, ToolFeatureArgument, ToolFeatureType, tool_wf};
use crate::identity::StatefulTool;
use crate::lifecycle::create_data_post;
use crate::store::{
    BrowseRequest, BrowseView, MethodOutcome, ToolState, browse_args, invoke_post,
    lemma_active_state_wf, state_wf,
};
use crate::value::{ScriptValue, obj_lookup, sv_get, sv_get_text};

verus! {

/// The arguments of the quote feature: the ticker symbol to look up.
#[derive(Debug, PartialEq, Eq)]
pub struct AlphaVantageRequest {
    pub symbol: String,
}

/// The parse of a quote argument payload: the text under "symbol".
pub open spec fn parse_request_spec(args: ScriptValue) -> Option<Seq<char>> {
    sv_get_text(args, "symbol"@)
}

impl AlphaVantageRequest {
    /// Reads the quote arguments out of the uniform payload.
    pub fn parse(args: &ScriptValue) -> (r: Option<AlphaVantageRequest>)
        ensures
            match r {
                Some(q) => parse_request_spec(*args) == Some(q.symbol@),
                None => parse_request_spec(*args) is None,
            },
    {
        match args.get_text("symbol") {
            Some(s) => Some(AlphaVantageRequest { symbol: s }),
            None => None,
        }
    }
}

/// The typed view of the market-data tool's configuration: its API key,
/// kept under "api key" in the tool's state data.
#[derive(Debug, PartialEq, Eq)]
pub struct AlphaVantageData {
    pub api_key: String,
}

impl AlphaVantageData {
    /// Reads the configuration object: the text under "api key"; `None`
    /// means the tool is not configured and opts out of activation.
    pub fn parse(config: &ScriptValue) -> (r: Option<AlphaVantageData>)
        ensures
            match r {
                Some(d) => sv_get_text(*config, "api key"@) == Some(d.api_key@),
                None => sv_get_text(*config, "api key"@) is None,
            },
    {
        match config.get_text("api key") {
            Some(s) => Some(AlphaVantageData { api_key: s }),
            None => None,
        }
    }

    /// The one invocation the state data answers directly: it hands out the
    /// API key, whatever name is asked.
    pub fn apply(&self, _name: &str) -> (r: ScriptValue)
        ensures
            r matches ScriptValue::Text(t) && t@ == self.api_key@,
    {
        ScriptValue::Text(self.api_key.clone())
    }

    /// The runtime state this configuration materializes.
    pub fn to_state(&self) -> (st: ToolState)
        ensures
            st.id == StatefulTool::AlphaVantage,
            sv_get_text(st.data, "api key"@) == Some(self.api_key@),
            state_wf(st),
    {
        let mut fields: Vec<(String, ScriptValue)> = Vec::new();
        fields.push(("api key".to_owned(), ScriptValue::Text(self.api_key.clone())));
        proof {
            assert(fields@[0].0@ == "api key"@);
            assert(obj_lookup(fields@, "api key"@) == Some(fields@[0].1));
        }
        ToolState { id: StatefulTool::AlphaVantage, data: ScriptValue::Object(fields) }
    }
}

/// The API key the store holds for the market-data tool, if it is active.
pub open spec fn av_api_key(store: crate::store::ToolStateStore) -> Option<Seq<char>> {
    match store.state_of(StatefulTool::AlphaVantage) {
        Some(st) => sv_get_text(st.data, "api key"@),
        None => None,
    }
}

/// The exact outbound call a quote for `symbol` issues: the provider's query
/// URL with the API key, the quote function and the symbol — nothing else.
pub open spec fn quote_browse_view(bv: BrowseView, key: Seq<char>, symbol: Seq<char>) -> bool {
    &&& bv.url == "https://www.alphavantage.co/query"@
    &&& bv.params.len() == 3
    &&& bv.params[0] == ("apikey"@, key)
    &&& bv.params[1] == ("function"@, "GLOBAL_QUOTE"@)
    &&& bv.params[2] == ("symbol"@, symbol)
}

/// What building a quote request returns, for every store: `NoToolState` for
/// whichever of the two identities is missing (the tool's own first), and
/// otherwise exactly one outbound call with the three expected parameters.
pub open spec fn ask_post(
    store: crate::store::ToolStateStore,
    symbol: Seq<char>,
    r: Result<BrowseRequest, ToolError>,
) -> bool {
    if store.state_of(StatefulTool::AlphaVantage) is None {
        r == Err::<BrowseRequest, ToolError>(
            ToolError::NoToolState(NoToolStateError(StatefulTool::AlphaVantage)),
        )
    } else if store.state_of(StatefulTool::HttpClient) is None {
        r == Err::<BrowseRequest, ToolError>(
            ToolError::NoToolState(NoToolStateError(StatefulTool::HttpClient)),
        )
    } else {
        r matches Ok(b) && quote_browse_view(b@, av_api_key(store).unwrap(), symbol)
    }
}

/// Builds the quote request: reads the tool's own API key through the state
/// store, then asks the HTTP transport — through the store, the one
/// sanctioned channel between tools — to browse the provider's query URL.
pub fn ask_alphavantage(ctx: &mut CommandContext, req: &AlphaVantageRequest) -> (r: Result<
    BrowseRequest,
    ToolError,
>)
    requires
        old(ctx).wf(),
    ensures
        *final(ctx) == *old(ctx),
        ask_post(old(ctx).module_state_store, req.symbol@, r),
{
    proof {
        let store0 = old(ctx).module_state_store;
        if store0.state_of(StatefulTool::AlphaVantage) is Some {
            lemma_active_state_wf(store0, StatefulTool::AlphaVantage);
            assert(av_api_key(store0) is Some);
        }
        if store0.state_of(StatefulTool::HttpClient) is Some {
            lemma_active_state_wf(store0, StatefulTool::HttpClient);
        }
    }
    let null_args = ScriptValue::Null;
    let key_outcome = match ctx.module_state_store.call_method(
        StatefulTool::AlphaVantage,
        "get api key",
        &null_args,
    ) {
        Ok(o) => o,
        Err(e) => {
            proof {
                let store0 = old(ctx).module_state_store;
                if store0.state_of(StatefulTool::AlphaVantage) is Some {
                    let st = store0.state_of(StatefulTool::AlphaVantage).unwrap();
                    assert(invoke_post(
                        st,
                        "get api key"@,
                        ScriptValue::Null,
                        Err::<MethodOutcome, ToolError>(e),
                    ));
                    assert(false);
                }
            }
            return Err(e);
        },
    };
    let api_key: String = match &key_outcome {
        MethodOutcome::Value(ScriptValue::Text(t)) => t.clone(),
        _ => {
            proof {
                let store0 = old(ctx).module_state_store;
                let st = store0.state_of(StatefulTool::AlphaVantage).unwrap();
                assert(invoke_post(
                    st,
                    "get api key"@,
                    ScriptValue::Null,
                    Ok::<MethodOutcome, ToolError>(key_outcome),
                ));
                assert(false);
            }
            return Err(ToolError::Opaque("alphavantage: no api key text".to_owned()));
        },
    };
    let mut params: Vec<(String, String)> = Vec::new();
    params.push(("apikey".to_owned(), api_key));
    params.push(("function".to_owned(), "GLOBAL_QUOTE".to_owned()));
    params.push(("symbol".to_owned(), req.symbol.clone()));
    let breq = BrowseRequest { url: "https://www.alphavantage.co/query".to_owned(), params };
    let payload = browse_args(&breq);
    let outcome = match ctx.module_state_store.call_method(
        StatefulTool::HttpClient,
        "browse",
        &payload,
    ) {
        Ok(o) => o,
        Err(e) => {
            proof {
                let store0 = old(ctx).module_state_store;
                if store0.state_of(StatefulTool::HttpClient) is Some {
                    let st = store0.state_of(StatefulTool::HttpClient).unwrap();
                    assert(invoke_post(
                        st,
                        "browse"@,
                        payload,
                        Err::<MethodOutcome, ToolError>(e),
                    ));
                    assert(false);
                }
            }
            return Err(e);
        },
    };
    match outcome {
        MethodOutcome::Outbound(b) => {
            proof {
                assert(breq@.params.len() == 3);
                assert(breq@.params[0] == ("apikey"@, breq.params@[0].1@));
                assert(breq@.params[1] == ("function"@, "GLOBAL_QUOTE"@));
                assert(breq@.params[2] == ("symbol"@, req.symbol@));
            }
            Ok(b)
        },
        _ => {
            proof {
                let store0 = old(ctx).module_state_store;
                let st = store0.state_of(StatefulTool::HttpClient).unwrap();
                assert(invoke_post(st, "browse"@, payload, Ok::<MethodOutcome, ToolError>(outcome)));
                assert(false);
            }
            Err(ToolError::Opaque("alphavantage: transport gave no request".to_owned()))
        },
    }
}

/// What the quote feature's handler returns, for every store and payload:
/// a malformed payload is an opaque failure, and otherwise the handler
/// yields exactly the pending outbound call that `ask_post` describes.
pub open spec fn quote_post(
    store: crate::store::ToolStateStore,
    args: ScriptValue,
    r: Result<InvocationOutcome, ToolError>,
) -> bool {
    match parse_request_spec(args) {
        None => r matches Err(e) && e matches ToolError::Opaque(_),
        Some(symbol) => if store.state_of(StatefulTool::AlphaVantage) is None {
            r == Err::<InvocationOutcome, ToolError>(
                ToolError::NoToolState(NoToolStateError(StatefulTool::AlphaVantage)),
            )
        } else if store.state_of(StatefulTool::HttpClient) is None {
            r == Err::<InvocationOutcome, ToolError>(
                ToolError::NoToolState(NoToolStateError(StatefulTool::HttpClient)),
            )
        } else {
            r matches Ok(InvocationOutcome::Outbound(b, p)) && p
                == PendingInvocation::AlphaVantageQuote && quote_browse_view(
                b@,
                av_api_key(store).unwrap(),
                symbol,
            )
        },
    }
}

/// The quote feature's handler: parses the arguments, builds the outbound
/// quote request, and leaves it pending for the surrounding loop.
pub fn alphavantage(ctx: &mut CommandContext, args: &ScriptValue) -> (r: Result<
    InvocationOutcome,
    ToolError,
>)
    requires
        old(ctx).wf(),
    ensures
        *final(ctx) == *old(ctx),
        quote_post(old(ctx).module_state_store, *args, r),
{
    let req = match AlphaVantageRequest::parse(args) {
        Some(q) => q,
        None => {
            return Err(ToolError::Opaque("alphavantage: arguments lack a text symbol".to_owned()));
        },
    };
    match ask_alphavantage(ctx, &req) {
        Ok(b) => Ok(InvocationOutcome::Outbound(b, PendingInvocation::AlphaVantageQuote)),
        Err(e) => Err(e),
    }
}

/// The quote feature's command object: the erased handler the feature table
/// binds under `CommandHandler::AlphaVantageQuote`.
#[derive(Debug, PartialEq, Eq)]
pub struct AlphaVantageImpl;

impl AlphaVantageImpl {
    /// Runs the quote handler on the given context and payload.
    pub fn invoke(&self, ctx: &mut CommandContext, args: &ScriptValue) -> (r: Result<
        InvocationOutcome,
        ToolError,
    >)
        requires
            old(ctx).wf(),
        ensures
            *final(ctx) == *old(ctx),
            quote_post(old(ctx).module_state_store, *args, r),
    {
        alphavantage(ctx, args)
    }
}

/// The market-data tool's lifecycle hook.
#[derive(Debug, PartialEq, Eq)]
pub struct AlphaVantageCycle;

impl AlphaVantageCycle {
    /// Contributes no per-turn prompt context and changes nothing.
    pub fn create_context(&self, context: &mut CommandContext, _previous_prompt: Option<&str>) -> (r:
        Result<Option<String>, ToolError>)
        ensures
            *final(context) == *old(context),
            r == Ok::<Option<String>, ToolError>(None),
    {
        Ok(None)
    }

    /// Materializes the tool's state from its configuration; an absent or
    /// keyless configuration is an opt-out, not an error.
    pub fn create_data(&self, config: ScriptValue) -> (r: Option<ToolState>)
        ensures
            create_data_post(ToolCycle::AlphaVantage, config, r),
    {
        match AlphaVantageData::parse(&config) {
            Some(d) => Some(d.to_state()),
            None => None,
        }
    }
}

/// The market-data tool's descriptor: it depends on the HTTP transport and
/// offers one quote feature, with the example payload the prompt shows.
pub fn create_alphavantage() -> (t: Tool)
    ensures
        t.id == StatefulTool::AlphaVantage,
        t.cycle == ToolCycle::AlphaVantage,
        tool_wf(t),
        t.dependencies@.len() == 1 && t.dependencies@[0] == StatefulTool::HttpClient,
        t.features@.len() == 1,
        t.features@[0].name@ == "alphavantage_quote"@,
        t.features@[0].purpose@ == "Read ticker prices from AlphaVantage."@,
        t.features@[0].feature_type == ToolFeatureType::Resource,
        t.features@[0].run == CommandHandler::AlphaVantageQuote,
        t.features@[0].args@.len() == 2,
        t.features@[0].args@[0].name@ == "function"@,
        t.features@[0].args@[0].example@ == "GLOBAL_QUOTE"@,
        t.features@[0].args@[1].name@ == "symbol"@,
        t.features@[0].args@[1].example@ == "AAPL"@,
{
    let mut args: Vec<ToolFeatureArgument> = Vec::new();
    args.push(ToolFeatureArgument::new("function", "GLOBAL_QUOTE"));
    args.push(ToolFeatureArgument::new("symbol", "AAPL"));
    let feature = ToolFeature {
        name: "alphavantage_quote".to_owned(),
        purpose: "Read ticker prices from AlphaVantage.".to_owned(),
        args,
        feature_type: ToolFeatureType::Resource,
        run: CommandHandler::AlphaVantageQuote,
    };
    let mut features: Vec<ToolFeature> = Vec::new();
    features.push(feature);
    let mut dependencies: Vec<StatefulTool> = Vec::new();
    dependencies.push(StatefulTool::HttpClient);
    Tool { id: StatefulTool::AlphaVantage, cycle: ToolCycle::AlphaVantage, dependencies, features }
}

/// One topic annotation on a provider news article.
#[derive(Debug, PartialEq, Eq)]
pub struct Topic {
    pub topic: String,
    pub relevance_score: String,
}

/// One per-ticker sentiment annotation on a provider news article.
#[derive(Debug, PartialEq, Eq)]
pub struct TickerSentiment {
    pub ticker: String,
    pub relevance_score: String,
    pub ticker_sentiment_score: String,
    pub ticker_sentiment_label: String,
}

/// One provider quote, each field keyed as the provider writes it.
#[derive(Debug, PartialEq, Eq)]
pub struct GlobalQuote {
    pub symbol: String,
    pub open_price: String,
    pub high: String,
    pub low: String,
    pub price: String,
    pub volume: String,
    pub latest_trading_day: String,
    pub previous_close: String,
    pub change: String,
    pub change_percent: String,
}

/// Every field of a provider quote object, keyed as the provider writes it.
pub open spec fn global_quote_present(v: ScriptValue) -> bool {
    &&& sv_get_text(v, "01. symbol"@) is Some
    &&& sv_get_text(v, "02. open"@) is Some
    &&& sv_get_text(v, "03. high"@) is Some
    &&& sv_get_text(v, "04. low"@) is Some
    &&& sv_get_text(v, "05. price"@) is Some
    &&& sv_get_text(v, "06. volume"@) is Some
    &&& sv_get_text(v, "07. latest trading day"@) is Some
    &&& sv_get_text(v, "08. previous close"@) is Some
    &&& sv_get_text(v, "09. change"@) is Some
    &&& sv_get_text(v, "10. change percent"@) is Some
}

/// Whether `q` holds, field for field, exactly the texts the provider's
/// quote object `g` binds under its numbered keys.
pub open spec fn global_quote_matches(g: ScriptValue, q: GlobalQuote) -> bool {
    &&& sv_get_text(g, "01. symbol"@) == Some(q.symbol@)
    &&& sv_get_text(g, "02. open"@) == Some(q.open_price@)
    &&& sv_get_text(g, "03. high"@) == Some(q.high@)
    &&& sv_get_text(g, "04. low"@) == Some(q.low@)
    &&& sv_get_text(g, "05. price"@) == Some(q.price@)
    &&& sv_get_text(g, "06. volume"@) == Some(q.volume@)
    &&& sv_get_text(g, "07. latest trading day"@) == Some(q.latest_trading_day@)
    &&& sv_get_text(g, "08. previous close"@) == Some(q.previous_close@)
    &&& sv_get_text(g, "09. change"@) == Some(q.change@)
    &&& sv_get_text(g, "10. change percent"@) == Some(q.change_percent@)
}

impl GlobalQuote {
    /// Reads a quote out of the provider's object; every field is required,
    /// exactly as the typed response model demands, and each comes back
    /// under its own key.
    pub fn parse(v: &ScriptValue) -> (r: Option<GlobalQuote>)
        ensures
            match r {
                Some(q) => global_quote_present(*v) && global_quote_matches(*v, q),
                None => !global_quote_present(*v),
            },
    {
        let symbol = match v.get_text("01. symbol") {
            Some(s) => s,
            None => {
                return None;
            },
        };
        let open_price = match v.get_text("02. open") {
            Some(s) => s,
            None => {
                return None;
            },
        };
        let high = match v.get_text("03. high") {
            Some(s) => s,
            None => {
                return None;
            },
        };
        let low = match v.get_text("04. low") {
            Some(s) => s,
            None => {
                return None;
            },
        };
        let price = match v.get_text("05. price") {
            Some(s) => s,
            None => {
                return None;
            },
        };
        let volume = match v.get_text("06. volume") {
            Some(s) => s,
            None => {
                return None;
            },
        };
        let latest_trading_day = match v.get_text("07. latest trading day") {
            Some(s) => s,
            None => {
                return None;
            },
        };
        let previous_close = match v.get_text("08. previous close") {
            Some(s) => s,
            None => {
                return None;
            },
        };
        let change = match v.get_text("09. change") {
            Some(s) => s,
            None => {
                return None;
            },
        };
        let change_percent = match v.get_text("10. change percent") {
            Some(s) => s,
            None => {
                return None;
            },
        };
        Some(
            GlobalQuote {
                symbol,
                open_price,
                high,
                low,
                price,
                volume,
                latest_trading_day,
                previous_close,
                change,
                change_percent,
            },
        )
    }
}

/// The provider's response envelope around one quote.
#[derive(Debug, PartialEq, Eq)]
pub struct QuoteObject {
    pub global_quote: GlobalQuote,
}

/// Whether a provider response carries a complete quote object.
pub open spec fn quote_object_present(v: ScriptValue) -> bool {
    match sv_get(v, "Global Quote"@) {
        Some(g) => global_quote_present(g),
        None => false,
    }
}

/// The price field of a provider response's quote object.
pub open spec fn quote_price(v: ScriptValue) -> Option<Seq<char>> {
    match sv_get(v, "Global Quote"@) {
        Some(g) => sv_get_text(g, "05. price"@),
        None => None,
    }
}

impl QuoteObject {
    /// Reads the quote envelope out of a provider response: the inner quote
    /// is pinned field for field to the envelope's quote object.
    pub fn parse(v: &ScriptValue) -> (r: Option<QuoteObject>)
        ensures
            match r {
                Some(q) => {
                    &&& quote_object_present(*v)
                    &&& (sv_get(*v, "Global Quote"@) matches Some(g) && global_quote_matches(
                        g,
                        q.global_quote,
                    ))
                    &&& quote_price(*v) == Some(q.global_quote.price@)
                },
                None => !quote_object_present(*v),
            },
    {
        match v.get("Global Quote") {
            Some(g) => match GlobalQuote::parse(g) {
                Some(gq) => Some(QuoteObject { global_quote: gq }),
                None => None,
            },
            None => None,
        }
    }
}

/// Finishes a pending quote with the transport's response: the parsed price
/// field as display text, or an opaque failure for an incomplete response.
pub fn read_quote_price(response: &ScriptValue) -> (r: Result<CommandResult, ToolError>)
    ensures
        match r {
            Ok(res) => quote_object_present(*response) && (res matches CommandResult::Text(t)
                && quote_price(*response) == Some(t@)),
            Err(e) => !quote_object_present(*response) && e matches ToolError::Opaque(_),
        },
{
    match QuoteObject::parse(response) {
        Some(q) => Ok(CommandResult::Text(q.global_quote.price)),
        None => Err(ToolError::Opaque("alphavantage: incomplete quote response".to_owned())),
    }
}

} // verus!
