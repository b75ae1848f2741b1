use vstd::prelude::*;
use crate::errors::ToolError;
use crate::feature::Tool;
use crate::store::ToolStateStore;
use crate::value::str_eq;

verus! {

/// A handle on one language model, as an agent role holds it.
#[derive(Debug, PartialEq, Eq)]
pub struct LLM {
    pub model: String,
}

/// One memory system of an agent role: an ordered log of entries.
#[derive(Debug, PartialEq, Eq)]
pub struct MemorySystem {
    pub entries: Vec<String>,
}

/// One agent role: a model handle plus an observation memory and a
/// reflection memory.
#[derive(Debug, PartialEq, Eq)]
pub struct AgentInfo {
    pub llm: LLM,
    pub observations: MemorySystem,
    pub reflections: MemorySystem,
}

/// The four agent roles of one conversation branch.
#[derive(Debug, PartialEq, Eq)]
pub struct Agents {
    pub static_agent: AgentInfo,
    pub planner: AgentInfo,
    pub dynamic: AgentInfo,
    pub fast: AgentInfo,
}

impl Agents {
    /// Builds the four roles from one fallible constructor, called once per
    /// role; the first failure comes back unchanged.
    pub fn same<F: Fn() -> Result<AgentInfo, ToolError>>(init: F) -> (r: Result<Agents, ToolError>)
        requires
            init.requires(()),
        ensures
            match r {
                Ok(a) => {
                    &&& init.ensures((), Ok(a.static_agent))
                    &&& init.ensures((), Ok(a.planner))
                    &&& init.ensures((), Ok(a.dynamic))
                    &&& init.ensures((), Ok(a.fast))
                },
                Err(e) => init.ensures((), Err::<AgentInfo, ToolError>(e)),
            },
    {
        let static_agent = match init() {
            Ok(a) => a,
            Err(e) => {
                return Err(e);
            },
        };
        let planner = match init() {
            Ok(a) => a,
            Err(e) => {
                return Err(e);
            },
        };
        let dynamic = match init() {
            Ok(a) => a,
            Err(e) => {
                return Err(e);
            },
        };
        let fast = match init() {
            Ok(a) => a,
            Err(e) => {
                return Err(e);
            },
        };
        Ok(Agents { static_agent, planner, dynamic, fast })
    }
}

/// The agent's candidate objectives and the index of the selected one;
/// mutated only by goal selection, read by prompt construction.
#[derive(Debug, PartialEq, Eq)]
pub struct EndGoals {
    pub end_goal: usize,
    pub end_goals: Vec<String>,
}

impl EndGoals {
    /// The selection stays within the candidate list.
    pub open spec fn wf(self) -> bool {
        self.end_goal < self.end_goals@.len()
    }

    /// The selected objective, cloned out.
    pub fn get(&self) -> (r: String)
        requires
            self.wf(),
        ensures
            r@ == self.end_goals@[self.end_goal as int]@,
    {
        self.end_goals[self.end_goal].clone()
    }
}

/// The per-branch bundle every invocation threads through: the tool state
/// store, the four agent roles, the enabled tool descriptors, the names of
/// explicitly disabled tools, and the shared name-to-blob assets. Created
/// once per conversation branch and never shared between branches.
#[derive(Debug, PartialEq, Eq)]
pub struct CommandContext {
    pub module_state_store: ToolStateStore,
    pub agents: Agents,
    pub plugins: Vec<Tool>,
    pub disabled_tools: Vec<String>,
    pub assets: Vec<(String, String)>,
}

impl CommandContext {
    /// The branch aggregate's invariant: the store keeps its own, and the
    /// asset mapping binds each name at most once, as a map does.
    pub open spec fn wf(self) -> bool {
        &&& self.module_state_store.wf()
        &&& forall|a: int, b: int|
            0 <= a < b < self.assets@.len() ==> self.assets@[a].0@ != self.assets@[b].0@
    }

    /// Decides the invariant, so an unverified caller can test a context it
    /// assembled by hand before invoking features through it.
    pub fn is_wf(&self) -> (r: bool)
        ensures
            r == self.wf(),
    {
        if !self.module_state_store.is_wf() {
            return false;
        }
        let n: usize = self.assets.len();
        let mut i: usize = 0;
        while i < n
            invariant
                i <= n,
                n == self.assets@.len(),
                forall|a: int, b: int|
                    0 <= a < b < self.assets@.len() && a < i ==> self.assets@[a].0@
                        != self.assets@[b].0@,
            decreases n - i,
        {
            let mut j: usize = i + 1;
            while j < n
                invariant
                    i < j <= n,
                    i < n,
                    n == self.assets@.len(),
                    forall|b: int|
                        i < b < j ==> self.assets@[i as int].0@ != (#[trigger] self.assets@[b]).0@,
                decreases n - j,
            {
                if str_eq(self.assets[i].0.as_str(), self.assets[j].0.as_str()) {
                    return false;
                }
                j += 1;
            }
            i += 1;
        }
        true
    }
}

} // verus!
