use vstd::prelude::*;
use crate::alphavantage::AlphaVantageCycle;
use crate::context::CommandContext;
use crate::errors::{NoToolStateError, ToolError};
use crate::feature::{Tool, ToolCycle, tool_wf};
use crate::identity::StatefulTool;
use crate::store::{ToolState, ToolStateStore, state_wf};
use crate::value::{ScriptValue, sv_get_text};

verus! {

/// Whether a hook, given this raw configuration, materializes a state at
/// all; a configuration it refuses is an opt-out, not an error.
pub open spec fn hook_materializes(cycle: ToolCycle, config: ScriptValue) -> bool {
    match cycle {
        ToolCycle::Empty => false,
        ToolCycle::HttpClient => !(config matches ScriptValue::Null),
        ToolCycle::AlphaVantage => sv_get_text(config, "api key"@) is Some,
    }
}

/// What a materialized state must hold, hook by hook: it belongs to the
/// hook's own tool, carries what the configuration supplied, and is fit for
/// its registered methods.
pub open spec fn created_state_ok(cycle: ToolCycle, config: ScriptValue, st: ToolState) -> bool {
    match cycle {
        ToolCycle::Empty => false,
        ToolCycle::HttpClient => st.id == StatefulTool::HttpClient && st.data == config
            && state_wf(st),
        ToolCycle::AlphaVantage => st.id == StatefulTool::AlphaVantage && sv_get_text(
            st.data,
            "api key"@,
        ) == sv_get_text(config, "api key"@) && state_wf(st),
    }
}

/// What a lifecycle hook materializes from a raw configuration: `None`
/// exactly when the hook opts out (the tool stays Unregistered), and
/// otherwise a state that `created_state_ok` pins down.
pub open spec fn create_data_post(cycle: ToolCycle, config: ScriptValue, r: Option<ToolState>) -> bool {
    if hook_materializes(cycle, config) {
        r matches Some(st) && created_state_ok(cycle, config, st)
    } else {
        r is None
    }
}

/// The per-turn prompt fragment a hook contributes, as a function of the
/// store and the previous fragment alone: none of the registered hooks
/// contributes text today.
pub open spec fn context_fragment_spec(
    cycle: ToolCycle,
    store: ToolStateStore,
    previous: Option<Seq<char>>,
) -> Option<Seq<char>> {
    match cycle {
        ToolCycle::Empty => None,
        ToolCycle::HttpClient => None,
        ToolCycle::AlphaVantage => None,
    }
}

/// The view of an optional owned prompt fragment.
pub open spec fn frag_view(o: Option<String>) -> Option<Seq<char>> {
    match o {
        Some(s) => Some(s@),
        None => None,
    }
}

/// The view of an optional borrowed prompt fragment.
pub open spec fn prev_view(o: Option<&str>) -> Option<Seq<char>> {
    match o {
        Some(s) => Some(s@),
        None => None,
    }
}

/// The lifecycle hook of a tool that keeps no state and adds no context.
#[derive(Debug, PartialEq, Eq)]
pub struct EmptyCycle;

impl EmptyCycle {
    /// Contributes no per-turn prompt context and changes nothing.
    pub fn create_context(&self, context: &mut CommandContext, _previous_prompt: Option<&str>) -> (r:
        Result<Option<String>, ToolError>)
        ensures
            *final(context) == *old(context),
            r == Ok::<Option<String>, ToolError>(None),
    {
        Ok(None)
    }

    /// Materializes no state: the tool opts out of activation.
    pub fn create_data(&self, _config: ScriptValue) -> (r: Option<ToolState>)
        ensures
            r is None,
    {
        None
    }
}

/// Runs the hook's data-construction step for one cycle.
pub fn cycle_create_data(cycle: ToolCycle, config: ScriptValue) -> (r: Option<ToolState>)
    ensures
        create_data_post(cycle, config, r),
{
    match cycle {
        ToolCycle::Empty => EmptyCycle.create_data(config),
        ToolCycle::HttpClient => match config {
            ScriptValue::Null => None,
            _ => Some(ToolState { id: StatefulTool::HttpClient, data: config }),
        },
        ToolCycle::AlphaVantage => AlphaVantageCycle.create_data(config),
    }
}

/// Runs the hook's per-turn context step for one cycle, before the model is
/// prompted.
pub fn cycle_create_context(
    cycle: ToolCycle,
    context: &mut CommandContext,
    previous_prompt: Option<&str>,
) -> (r: Result<Option<String>, ToolError>)
    ensures
        *final(context) == *old(context),
        r matches Ok(o) && frag_view(o) == context_fragment_spec(
            cycle,
            old(context).module_state_store,
            prev_view(previous_prompt),
        ),
{
    match cycle {
        ToolCycle::Empty => EmptyCycle.create_context(context, previous_prompt),
        ToolCycle::HttpClient => Ok(None),
        ToolCycle::AlphaVantage => AlphaVantageCycle.create_context(context, previous_prompt),
    }
}

/// The per-turn hook is idempotent: with the tool's state and the previous
/// fragment unchanged, two runs contribute the same optional text.
pub proof fn lemma_create_context_idempotent(
    cycle: ToolCycle,
    before: ToolStateStore,
    after: ToolStateStore,
    previous: Option<Seq<char>>,
)
    requires
        after == before,
    ensures
        context_fragment_spec(cycle, after, previous) == context_fragment_spec(
            cycle,
            before,
            previous,
        ),
{
}

/// Every dependency of `tool` is Active in `store`.
pub open spec fn deps_active(store: ToolStateStore, tool: Tool) -> bool {
    forall|k: int|
        0 <= k < tool.dependencies@.len() ==> store.contains(#[trigger] tool.dependencies@[k])
}

/// How one activation relates the store before to the store after and to
/// its result: it succeeds exactly when every dependency is already Active,
/// files exactly what the hook materialized, and touches nothing else.
pub open spec fn activate_post(
    before: ToolStateStore,
    tool: Tool,
    config: ScriptValue,
    after: ToolStateStore,
    r: Result<bool, ToolError>,
) -> bool {
    match r {
        Ok(activated) => {
            &&& deps_active(before, tool)
            &&& create_data_post(tool.cycle, config, after.state_of(tool.id))
            &&& activated == after.contains(tool.id)
            &&& forall|o: StatefulTool|
                o != tool.id ==> #[trigger] after.state_of(o) == before.state_of(o)
        },
        Err(e) => {
            &&& after == before
            &&& !deps_active(before, tool)
            &&& exists|k: int|
                0 <= k < tool.dependencies@.len() && !before.contains(
                    #[trigger] tool.dependencies@[k],
                ) && e == ToolError::NoToolState(NoToolStateError(tool.dependencies@[k]))
        },
    }
}

/// Reaching Active is possible only after every declared dependency is
/// Active: an activation that returns `Ok` saw them all in the store.
pub proof fn lemma_active_only_after_deps(
    before: ToolStateStore,
    tool: Tool,
    config: ScriptValue,
    after: ToolStateStore,
    r: Result<bool, ToolError>,
)
    requires
        activate_post(before, tool, config, after, r),
        r is Ok,
    ensures
        deps_active(before, tool),
{
}

/// Activating out of order is deterministically rejected: with any declared
/// dependency missing, an activation cannot return `Ok`.
pub proof fn lemma_out_of_order_rejected(
    before: ToolStateStore,
    tool: Tool,
    config: ScriptValue,
    after: ToolStateStore,
    r: Result<bool, ToolError>,
)
    requires
        activate_post(before, tool, config, after, r),
        !deps_active(before, tool),
    ensures
        r is Err,
        after == before,
{
}

/// Activates one configured tool against the store. Every dependency must
/// already be Active: a missing one is the fatal startup condition and
/// leaves the store unchanged. The hook then materializes a state from the
/// configuration, or opts the tool out — not an error, the tool just stays
/// Unregistered.
pub fn activate(store: &mut ToolStateStore, tool: &Tool, config: ScriptValue) -> (r: Result<
    bool,
    ToolError,
>)
    requires
        old(store).wf(),
        tool_wf(*tool),
        old(store).state_of(tool.id) is None,
    ensures
        final(store).wf(),
        activate_post(*old(store), *tool, config, *final(store), r),
{
    let nd: usize = tool.dependencies.len();
    let mut k: usize = 0;
    while k < nd
        invariant
            k <= nd,
            nd == tool.dependencies@.len(),
            *store == *old(store),
            store.wf(),
            forall|j: int| 0 <= j < k ==> old(store).contains(#[trigger] tool.dependencies@[j]),
        decreases nd - k,
    {
        match store.get_state(tool.dependencies[k]) {
            Ok(_) => {},
            Err(e) => {
                return Err(e);
            },
        }
        k += 1;
    }
    match cycle_create_data(tool.cycle, config) {
        Some(st) => {
            store.put_state(tool.id, st);
            Ok(true)
        },
        None => Ok(false),
    }
}

/// Whether `id` is Active after the first `i` startup steps: some earlier
/// descriptor carries it and its hook materializes a state from the
/// configuration paired with it.
pub open spec fn active_after(
    tools: Seq<Tool>,
    configs: Seq<ScriptValue>,
    i: int,
    id: StatefulTool,
) -> bool {
    exists|j: int|
        0 <= j < i && (#[trigger] tools[j]).id == id && hook_materializes(
            tools[j].cycle,
            configs[j],
        )
}

/// Whether step `k` finds every one of its declared dependencies Active at
/// its own turn.
pub open spec fn deps_active_at(tools: Seq<Tool>, configs: Seq<ScriptValue>, k: int) -> bool {
    forall|d: int|
        0 <= d < tools[k].dependencies@.len() ==> active_after(
            tools,
            configs,
            k,
            #[trigger] tools[k].dependencies@[d],
        )
}

/// Whether the whole registration order is consistent with the dependency
/// graph: every step finds its dependencies Active at its turn.
pub open spec fn startup_ok(tools: Seq<Tool>, configs: Seq<ScriptValue>) -> bool {
    forall|k: int| 0 <= k < tools.len() ==> #[trigger] deps_active_at(tools, configs, k)
}

/// Activates every configured tool, in registration order — which must be
/// consistent with the dependency graph — pairing each tool with its raw
/// configuration by position. Success files exactly what each hook
/// materializes and nothing else; the first dependency that is not Active at
/// its dependant's turn aborts the whole startup with `NoToolState` naming
/// it — the fatal condition, not a runtime error.
pub fn activate_all(tools: &Vec<Tool>, configs: Vec<ScriptValue>) -> (r: Result<
    ToolStateStore,
    ToolError,
>)
    requires
        tools@.len() == configs@.len(),
        forall|k: int| 0 <= k < tools@.len() ==> tool_wf(#[trigger] tools@[k]),
        forall|a: int, b: int| 0 <= a < b < tools@.len() ==> tools@[a].id != tools@[b].id,
    ensures
        match r {
            Ok(store) => {
                &&& startup_ok(tools@, configs@)
                &&& store.wf()
                &&& forall|k: int|
                    0 <= k < tools@.len() ==> create_data_post(
                        (#[trigger] tools@[k]).cycle,
                        configs@[k],
                        store.state_of(tools@[k].id),
                    )
                &&& forall|id: StatefulTool|
                    #[trigger] store.contains(id) <==> active_after(
                        tools@,
                        configs@,
                        tools@.len() as int,
                        id,
                    )
            },
            Err(e) => {
                &&& !startup_ok(tools@, configs@)
                &&& exists|k: int, d: int|
                    {
                        &&& 0 <= k < tools@.len()
                        &&& 0 <= d < tools@[k].dependencies@.len()
                        &&& !active_after(
                            tools@,
                            configs@,
                            k,
                            #[trigger] tools@[k].dependencies@[d],
                        )
                        &&& e == ToolError::NoToolState(
                            NoToolStateError(tools@[k].dependencies@[d]),
                        )
                    }
            },
        },
{
    let mut store = ToolStateStore::new();
    let mut cfgs = configs;
    let n: usize = tools.len();
    proof {
        assert(cfgs@ == configs@);
        assert(configs@.subrange(0, n as int) =~= configs@);
    }
    let mut i: usize = 0;
    while i < n
        invariant
            i <= n,
            n == tools@.len(),
            n == configs@.len(),
            cfgs@ == configs@.subrange(i as int, n as int),
            store.wf(),
            forall|k: int| 0 <= k < tools@.len() ==> tool_wf(#[trigger] tools@[k]),
            forall|a: int, b: int| 0 <= a < b < tools@.len() ==> tools@[a].id != tools@[b].id,
            forall|id: StatefulTool|
                #[trigger] store.contains(id) <==> active_after(tools@, configs@, i as int, id),
            forall|k: int|
                0 <= k < i ==> create_data_post(
                    (#[trigger] tools@[k]).cycle,
                    configs@[k],
                    store.state_of(tools@[k].id),
                ),
            forall|k: int| 0 <= k < i ==> #[trigger] deps_active_at(tools@, configs@, k),
        decreases n - i,
    {
        let ghost iid = tools@[i as int].id;
        let config = cfgs.remove(0);
        proof {
            assert(config == configs@[i as int]);
            assert(cfgs@ =~= configs@.subrange(i as int + 1, n as int));
            if store.contains(iid) {
                let j0 = choose|j: int|
                    0 <= j < i && (#[trigger] tools@[j]).id == iid && hook_materializes(
                        tools@[j].cycle,
                        configs@[j],
                    );
                assert(tools@[j0].id != tools@[i as int].id);
            }
        }
        let ghost store_prev = store;
        match activate(&mut store, &tools[i], config) {
            Ok(_) => {},
            Err(e) => {
                proof {
                    let d0 = choose|d: int|
                        0 <= d < tools@[i as int].dependencies@.len() && !store_prev.contains(
                            #[trigger] tools@[i as int].dependencies@[d],
                        ) && e == ToolError::NoToolState(
                            NoToolStateError(tools@[i as int].dependencies@[d]),
                        );
                    assert(!active_after(
                        tools@,
                        configs@,
                        i as int,
                        tools@[i as int].dependencies@[d0],
                    ));
                    assert(!deps_active_at(tools@, configs@, i as int));
                    assert(!startup_ok(tools@, configs@));
                }
                return Err(e);
            },
        }
        proof {
            assert forall|k: int|
                0 <= k < i + 1 implies create_data_post(
                (#[trigger] tools@[k]).cycle,
                configs@[k],
                store.state_of(tools@[k].id),
            ) by {
                if k < i {
                    assert(tools@[k].id != iid);
                    assert(store.state_of(tools@[k].id) == store_prev.state_of(tools@[k].id));
                } else {
                    assert(create_data_post(
                        tools@[i as int].cycle,
                        configs@[i as int],
                        store.state_of(iid),
                    ));
                }
            }
            assert forall|id: StatefulTool| #[trigger] store.contains(id) <==> active_after(
                tools@,
                configs@,
                i as int + 1,
                id,
            ) by {
                if id == iid {
                    assert(create_data_post(
                        tools@[i as int].cycle,
                        configs@[i as int],
                        store.state_of(iid),
                    ));
                    if store.contains(id) {
                        assert(hook_materializes(tools@[i as int].cycle, configs@[i as int]));
                        assert(active_after(tools@, configs@, i as int + 1, id)) by {
                            assert(0 <= i < i + 1 && tools@[i as int].id == id
                                && hook_materializes(tools@[i as int].cycle, configs@[i as int]));
                        }
                    }
                    if active_after(tools@, configs@, i as int + 1, id) {
                        let j0 = choose|j: int|
                            0 <= j < i + 1 && (#[trigger] tools@[j]).id == id && hook_materializes(
                                tools@[j].cycle,
                                configs@[j],
                            );
                        if j0 < i {
                            assert(tools@[j0].id != tools@[i as int].id);
                        }
                        assert(hook_materializes(tools@[i as int].cycle, configs@[i as int]));
                        assert(store.state_of(iid) is Some);
                        assert(store.contains(id));
                    }
                } else {
                    assert(store.state_of(id) == store_prev.state_of(id));
                    assert(store.contains(id) == store_prev.contains(id));
                    if store_prev.contains(id) {
                        assert(active_after(tools@, configs@, i as int, id));
                        let j1 = choose|j: int|
                            0 <= j < i && (#[trigger] tools@[j]).id == id && hook_materializes(
                                tools@[j].cycle,
                                configs@[j],
                            );
                        assert(active_after(tools@, configs@, i as int + 1, id)) by {
                            assert(0 <= j1 < i + 1 && tools@[j1].id == id && hook_materializes(
                                tools@[j1].cycle,
                                configs@[j1],
                            ));
                        }
                    }
                    if active_after(tools@, configs@, i as int + 1, id) {
                        let j0 = choose|j: int|
                            0 <= j < i + 1 && (#[trigger] tools@[j]).id == id && hook_materializes(
                                tools@[j].cycle,
                                configs@[j],
                            );
                        assert(j0 != i);
                        assert(active_after(tools@, configs@, i as int, id)) by {
                            assert(0 <= j0 < i && tools@[j0].id == id && hook_materializes(
                                tools@[j0].cycle,
                                configs@[j0],
                            ));
                        }
                        assert(store_prev.contains(id));
                    }
                }
            }
            assert forall|d: int|
                0 <= d < tools@[i as int].dependencies@.len() implies active_after(
                tools@,
                configs@,
                i as int,
                #[trigger] tools@[i as int].dependencies@[d],
            ) by {
                assert(store_prev.contains(tools@[i as int].dependencies@[d]));
            }
            assert(deps_active_at(tools@, configs@, i as int));
        }
        i += 1;
    }
    Ok(store)
}

/// The HTTP transport tool's descriptor: no dependencies and no
/// prompt-visible features — it exists for other tools to call through the
/// store.
pub fn create_http_client() -> (t: Tool)
    ensures
        t.id == StatefulTool::HttpClient,
        t.cycle == ToolCycle::HttpClient,
        tool_wf(t),
        t.dependencies@.len() == 0,
        t.features@.len() == 0,
{
    Tool {
        id: StatefulTool::HttpClient,
        cycle: ToolCycle::HttpClient,
        dependencies: Vec::new(),
        features: Vec::new(),
    }
}

} // verus!
