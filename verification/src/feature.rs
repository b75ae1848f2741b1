use vstd::prelude::*;
use crate::identity::StatefulTool;

verus! {

/// One named argument of a feature, with the example value that prompt
/// construction shows the model. The example is a contract: parsed, it must
/// yield arguments the feature's handler accepts.
#[derive(Debug, PartialEq, Eq)]
pub struct ToolFeatureArgument {
    pub name: String,
    pub example: String,
}

impl ToolFeatureArgument {
    /// A named argument with its example value.
    pub fn new(name: &str, example: &str) -> (r: Self)
        ensures
            r.name@ == name@,
            r.example@ == example@,
    {
        ToolFeatureArgument { name: name.to_owned(), example: example.to_owned() }
    }
}

impl Clone for ToolFeatureArgument {
    /// An independent copy with the same name and example.
    fn clone(&self) -> (r: Self)
        ensures
            r == *self,
    {
        ToolFeatureArgument { name: self.name.clone(), example: self.example.clone() }
    }
}

/// Resource features are read-only and unconditionally executable; Action
/// features may have side effects and may demand a per-turn permission.
#[derive(Copy, Clone, PartialEq, Eq, Debug, Structural)]
pub enum ToolFeatureType {
    Resource,
    Action { needs_permission: bool },
}

/// The command bound to a feature. Handlers are resolved from this closed
/// registry at the call, so a feature table stays plain data.
#[derive(Copy, Clone, PartialEq, Eq, Debug, Structural)]
pub enum CommandHandler {
    AlphaVantageQuote,
}

/// The lifecycle hook a descriptor carries, from the closed registry of
/// known hooks: each materializes state from raw configuration and may
/// inject per-turn prompt context.
#[derive(Copy, Clone, PartialEq, Eq, Debug, Structural)]
pub enum ToolCycle {
    Empty,
    HttpClient,
    AlphaVantage,
}

/// One named, prompt-described operation offered by a tool.
#[derive(Debug, PartialEq, Eq)]
pub struct ToolFeature {
    pub name: String,
    pub purpose: String,
    pub args: Vec<ToolFeatureArgument>,
    pub feature_type: ToolFeatureType,
    pub run: CommandHandler,
}

impl ToolFeature {
    /// An independent copy of the feature's description and binding, so each
    /// conversation branch can own its command table.
    pub fn box_clone(&self) -> (r: Self)
        ensures
            r.name == self.name,
            r.purpose == self.purpose,
            r.args@ == self.args@,
            r.feature_type == self.feature_type,
            r.run == self.run,
    {
        let args = self.args.clone();
        proof {
            assert forall|i: int| 0 <= i < self.args@.len() implies args@[i] == self.args@[i] by {
            }
            assert(args@ =~= self.args@);
        }
        ToolFeature {
            name: self.name.clone(),
            purpose: self.purpose.clone(),
            args,
            feature_type: self.feature_type,
            run: self.run,
        }
    }
}

/// A tool descriptor: identity, the dependencies that must already be
/// Active, the lifecycle hook, and the ordered features it exposes.
/// Immutable after registration.
#[derive(Debug, PartialEq, Eq)]
pub struct Tool {
    pub id: StatefulTool,
    pub cycle: ToolCycle,
    pub dependencies: Vec<StatefulTool>,
    pub features: Vec<ToolFeature>,
}

/// A descriptor's hook materializes states only for its own identity.
pub open spec fn tool_wf(t: Tool) -> bool {
    match t.cycle {
        ToolCycle::Empty => true,
        ToolCycle::HttpClient => t.id == StatefulTool::HttpClient,
        ToolCycle::AlphaVantage => t.id == StatefulTool::AlphaVantage,
    }
}

} // verus!
