use vstd::prelude::*;
use crate::alphavantage::{
    alphavantage, parse_request_spec, quote_object_present, quote_post, quote_price,
    read_quote_price,
};
use crate::context::CommandContext;
use crate::errors::{CommandNoArgError, ToolError, is_missing_argument};
use crate::feature::{CommandHandler, ToolFeature, ToolFeatureArgument, ToolFeatureType};
use crate::store::BrowseRequest;
use crate::value::{ScriptValue, obj_lookup, sv_get, sv_get_text};

verus! {

/// A command's result: a structured value or display text.
#[derive(Debug, PartialEq, Eq)]
pub enum CommandResult {
    ScriptValue(ScriptValue),
    Text(String),
}

/// The continuation of an invocation that awaits a transport response.
#[derive(Copy, Clone, PartialEq, Eq, Debug, Structural)]
pub enum PendingInvocation {
    AlphaVantageQuote,
}

/// What a feature invocation yields: a finished result; an outbound call
/// left pending, whose response `resume` turns into the result; or the
/// permission gate holding an unauthorized Action.
#[derive(Debug, PartialEq, Eq)]
pub enum InvocationOutcome {
    Done(CommandResult),
    Outbound(BrowseRequest, PendingInvocation),
    Denied,
}

/// The first declared argument that the payload does not bind, if any:
/// dispatch checks presence only, never schema.
pub open spec fn missing_arg_spec(
    args_decl: Seq<ToolFeatureArgument>,
    payload: ScriptValue,
) -> Option<Seq<char>>
    decreases args_decl.len(),
{
    if args_decl.len() == 0 {
        None
    } else if sv_get(payload, args_decl[0].name@) is None {
        Some(args_decl[0].name@)
    } else {
        missing_arg_spec(args_decl.subrange(1, args_decl.len() as int), payload)
    }
}

/// Finds the first declared argument missing from the payload.
fn find_missing_arg(feature: &ToolFeature, payload: &ScriptValue) -> (r: Option<String>)
    ensures
        match r {
            Some(name) => missing_arg_spec(feature.args@, *payload) == Some(name@),
            None => missing_arg_spec(feature.args@, *payload) is None,
        },
{
    let n: usize = feature.args.len();
    proof {
        assert(feature.args@.subrange(0, n as int) =~= feature.args@);
    }
    let mut i: usize = 0;
    while i < n
        invariant
            i <= n,
            n == feature.args@.len(),
            missing_arg_spec(feature.args@, *payload) == missing_arg_spec(
                feature.args@.subrange(i as int, n as int),
                *payload,
            ),
        decreases n - i,
    {
        proof {
            assert(feature.args@.subrange(i as int, n as int)[0] == feature.args@[i as int]);
            assert(feature.args@.subrange(i as int, n as int).subrange(1, (n - i) as int)
                =~= feature.args@.subrange(i as int + 1, n as int));
        }
        if payload.get(feature.args[i].name.as_str()).is_none() {
            return Some(feature.args[i].name.clone());
        }
        i += 1;
    }
    None
}

/// Whether the permission gate holds an invocation: only an Action that
/// demands permission, invoked without authorization, is held.
pub open spec fn gate_holds(ft: ToolFeatureType, authorized: bool) -> bool {
    ft matches ToolFeatureType::Action { needs_permission } && needs_permission && !authorized
}

/// What the handler bound to a feature returns for a store and a payload.
pub open spec fn handler_post(
    h: CommandHandler,
    store: crate::store::ToolStateStore,
    args: ScriptValue,
    r: Result<InvocationOutcome, ToolError>,
) -> bool {
    match h {
        CommandHandler::AlphaVantageQuote => quote_post(store, args, r),
    }
}

/// The uniform entrypoint for a chosen feature and argument payload: the
/// permission gate first — while it holds, no handler code runs and nothing
/// changes; then the argument presence check — a missing argument aborts
/// with `MissingArgument` before any state mutation or outbound call; then
/// the bound handler with the context and the payload.
pub fn invoke_feature(
    ctx: &mut CommandContext,
    tool_label: &str,
    feature: &ToolFeature,
    args: &ScriptValue,
    authorized: bool,
) -> (r: Result<InvocationOutcome, ToolError>)
    requires
        old(ctx).wf(),
    ensures
        *final(ctx) == *old(ctx),
        if gate_holds(feature.feature_type, authorized) {
            r == Ok::<InvocationOutcome, ToolError>(InvocationOutcome::Denied)
        } else {
            match missing_arg_spec(feature.args@, *args) {
                Some(name) => r matches Err(e) && is_missing_argument(e, tool_label@, name),
                None => handler_post(feature.run, old(ctx).module_state_store, *args, r),
            }
        },
{
    match feature.feature_type {
        ToolFeatureType::Action { needs_permission } => {
            if needs_permission && !authorized {
                return Ok(InvocationOutcome::Denied);
            }
        },
        ToolFeatureType::Resource => {},
    }
    match find_missing_arg(feature, args) {
        Some(name) => {
            return Err(
                ToolError::MissingArgument(CommandNoArgError(tool_label.to_owned(), name)),
            );
        },
        None => {},
    }
    match feature.run {
        CommandHandler::AlphaVantageQuote => alphavantage(ctx, args),
    }
}

/// Finishes a pending invocation with the response of its outbound call:
/// for the quote, the parsed price field as display text.
pub fn resume(pending: PendingInvocation, response: &ScriptValue) -> (r: Result<
    CommandResult,
    ToolError,
>)
    ensures
        match pending {
            PendingInvocation::AlphaVantageQuote => match r {
                Ok(res) => quote_object_present(*response) && (res matches CommandResult::Text(t)
                    && quote_price(*response) == Some(t@)),
                Err(e) => !quote_object_present(*response) && e matches ToolError::Opaque(_),
            },
        },
{
    match pending {
        PendingInvocation::AlphaVantageQuote => read_quote_price(response),
    }
}

/// Prompt examples are a contract: a payload that binds every declared
/// argument passes the dispatcher's presence check.
pub proof fn lemma_example_args_accepted(args_decl: Seq<ToolFeatureArgument>, payload: ScriptValue)
    requires
        forall|k: int|
            0 <= k < args_decl.len() ==> sv_get(payload, (#[trigger] args_decl[k]).name@) is Some,
    ensures
        missing_arg_spec(args_decl, payload) is None,
    decreases args_decl.len(),
{
    if args_decl.len() > 0 {
        let tail = args_decl.subrange(1, args_decl.len() as int);
        assert(forall|k: int| 0 <= k < tail.len() ==> #[trigger] tail[k] == args_decl[k + 1]);
        lemma_example_args_accepted(tail, payload);
    }
}

/// A feature's declared argument names are pairwise distinct.
pub open spec fn feature_args_wf(args_decl: Seq<ToolFeatureArgument>) -> bool {
    forall|a: int, b: int|
        0 <= a < b < args_decl.len() ==> args_decl[a].name@ != args_decl[b].name@
}

/// The example payload of a feature: each declared argument bound to its
/// example value, in declaration order. It passes the presence check, and
/// each name reads back as its example text.
pub fn example_payload(feature: &ToolFeature) -> (r: ScriptValue)
    requires
        feature_args_wf(feature.args@),
    ensures
        forall|k: int|
            0 <= k < feature.args@.len() ==> sv_get_text(r, (#[trigger] feature.args@[k]).name@)
                == Some(feature.args@[k].example@),
        missing_arg_spec(feature.args@, r) is None,
{
    let n: usize = feature.args.len();
    let mut fields: Vec<(String, ScriptValue)> = Vec::new();
    let mut i: usize = 0;
    while i < n
        invariant
            i <= n,
            n == feature.args@.len(),
            fields@.len() == i,
            forall|k: int|
                0 <= k < i ==> (#[trigger] fields@[k]).0@ == feature.args@[k].name@ && (
                fields@[k].1 matches ScriptValue::Text(t) && t@ == feature.args@[k].example@),
        decreases n - i,
    {
        let name = feature.args[i].name.clone();
        let example = feature.args[i].example.clone();
        fields.push((name, ScriptValue::Text(example)));
        i += 1;
    }
    let r = ScriptValue::Object(fields);
    proof {
        assert forall|k: int|
            0 <= k < feature.args@.len() implies sv_get_text(r, (#[trigger] feature.args@[k]).name@)
            == Some(feature.args@[k].example@) by {
            lemma_obj_lookup_first(fields@, k);
        }
        assert forall|k: int|
            0 <= k < feature.args@.len() implies sv_get(
            r,
            (#[trigger] feature.args@[k]).name@,
        ) is Some by {
            assert(sv_get_text(r, feature.args@[k].name@) == Some(feature.args@[k].example@));
        }
        lemma_example_args_accepted(feature.args@, r);
    }
    r
}

/// Prompt examples are a contract, through the handler too: a payload that
/// binds every declared argument of the quote feature to its example text
/// passes the presence check and parses to the example symbol, which the
/// quote handler accepts.
pub proof fn lemma_quote_example_accepted(args_decl: Seq<ToolFeatureArgument>, payload: ScriptValue)
    requires
        args_decl.len() == 2,
        args_decl[1].name@ == "symbol"@,
        forall|k: int|
            0 <= k < args_decl.len() ==> sv_get_text(payload, (#[trigger] args_decl[k]).name@)
                == Some(args_decl[k].example@),
    ensures
        parse_request_spec(payload) == Some(args_decl[1].example@),
        missing_arg_spec(args_decl, payload) is None,
{
    assert(sv_get_text(payload, args_decl[1].name@) == Some(args_decl[1].example@));
    assert forall|k: int|
        0 <= k < args_decl.len() implies sv_get(payload, (#[trigger] args_decl[k]).name@) is Some by {
        assert(sv_get_text(payload, args_decl[k].name@) == Some(args_decl[k].example@));
    }
    lemma_example_args_accepted(args_decl, payload);
}

/// With the keys before it all different from its own, an entry's key looks
/// up that entry's value.
pub proof fn lemma_obj_lookup_first(entries: Seq<(String, ScriptValue)>, j: int)
    requires
        0 <= j < entries.len(),
        forall|a: int| 0 <= a < j ==> (#[trigger] entries[a]).0@ != entries[j].0@,
    ensures
        obj_lookup(entries, entries[j].0@) == Some(entries[j].1),
    decreases entries.len(),
{
    if j == 0 {
    } else {
        let tail = entries.subrange(1, entries.len() as int);
        assert(forall|k: int| 0 <= k < tail.len() ==> #[trigger] tail[k] == entries[k + 1]);
        lemma_obj_lookup_first(tail, j - 1);
    }
}

} // verus!
