use vstd::prelude::*;
use vstd::string::StringExecFns;
use crate::identity::{StatefulTool, tool_name, tool_name_spec};

verus! {

/// A tool's state was asked for an invocation it does not support: the
/// tool's name and the refused invocation's name.
#[derive(Debug, PartialEq, Eq)]
pub struct ToolStateNoInvoke(pub String, pub String);

/// A feature ran without one of its required arguments: the tool's name and
/// the missing argument's name.
#[derive(Debug, PartialEq, Eq)]
pub struct CommandNoArgError(pub String, pub String);

/// A lookup hit an identity that was never activated.
#[derive(Debug, PartialEq, Eq, Structural)]
pub struct NoToolStateError(pub StatefulTool);

/// Every failure the dispatch core produces itself, plus the opaque kind
/// that carries a tool-internal failure through unchanged.
#[derive(Debug, PartialEq, Eq)]
pub enum ToolError {
    NoToolState(NoToolStateError),
    NoSuchInvocation(ToolStateNoInvoke),
    MissingArgument(CommandNoArgError),
    Opaque(String),
}

impl ToolStateNoInvoke {
    /// The error's display line, as the surrounding shell prints it.
    pub fn message(&self) -> (r: String)
        ensures
            r@ == "the '"@ + self.0@ + "' plugin's data does not have '"@ + self.1@
                + "' invocation."@,
    {
        "the '".to_owned().concat(self.0.as_str()).concat(
            "' plugin's data does not have '",
        ).concat(self.1.as_str()).concat("' invocation.")
    }
}

impl CommandNoArgError {
    /// The error's display line, as the surrounding shell prints it.
    pub fn message(&self) -> (r: String)
        ensures
            r@ == "the '"@ + self.0@ + "' tool did not receive the '"@ + self.1@
                + "' argument."@,
    {
        "the '".to_owned().concat(self.0.as_str()).concat(
            "' tool did not receive the '",
        ).concat(self.1.as_str()).concat("' argument.")
    }
}

impl NoToolStateError {
    /// The error's display line, as the surrounding shell prints it.
    pub fn message(&self) -> (r: String)
        ensures
            r@ == "could not find plugin data for plugin \""@ + tool_name_spec(self.0) + "\""@,
    {
        "could not find plugin data for plugin \"".to_owned().concat(
            tool_name(self.0).as_str(),
        ).concat("\"")
    }
}

impl ToolError {
    /// The display line of whichever failure this is; an opaque failure
    /// carries its own descriptive message through unchanged.
    pub fn message(&self) -> (r: String)
        ensures
            r@ == match *self {
                ToolError::NoToolState(n) => "could not find plugin data for plugin \""@
                    + tool_name_spec(n.0) + "\""@,
                ToolError::NoSuchInvocation(t) => "the '"@ + t.0@
                    + "' plugin's data does not have '"@ + t.1@ + "' invocation."@,
                ToolError::MissingArgument(c) => "the '"@ + c.0@
                    + "' tool did not receive the '"@ + c.1@ + "' argument."@,
                ToolError::Opaque(m) => m@,
            },
    {
        match self {
            ToolError::NoToolState(n) => n.message(),
            ToolError::NoSuchInvocation(t) => t.message(),
            ToolError::MissingArgument(c) => c.message(),
            ToolError::Opaque(m) => m.clone(),
        }
    }
}

/// The error that reports an unsupported invocation `method` on `id`.
pub open spec fn is_no_such_invocation(e: ToolError, id: StatefulTool, method: Seq<char>) -> bool {
    &&& e matches ToolError::NoSuchInvocation(t)
    &&& t.0@ == tool_name_spec(id)
    &&& t.1@ == method
}

/// The error that reports a required argument `arg` missing on tool `tool`.
pub open spec fn is_missing_argument(e: ToolError, tool: Seq<char>, arg: Seq<char>) -> bool {
    &&& e matches ToolError::MissingArgument(c)
    &&& c.0@ == tool
    &&& c.1@ == arg
}

} // verus!
