use vstd::prelude::*;

verus! {

/// The finite, totally ordered set of known tool kinds. An identity is the
/// unique key for state-store lookups and the unit of dependency-ordered
/// activation.
#[derive(Copy, Clone, PartialEq, Eq, PartialOrd, Ord, Debug, Structural)]
pub enum StatefulTool {
    HttpClient,
    Google,
    NewsApi,
    Wolfram,
    AlphaVantage,
}

/// The display name of a tool identity, as features and errors carry it.
pub open spec fn tool_name_spec(id: StatefulTool) -> Seq<char> {
    match id {
        StatefulTool::HttpClient => "HttpClient"@,
        StatefulTool::Google => "Google"@,
        StatefulTool::NewsApi => "NewsApi"@,
        StatefulTool::Wolfram => "Wolfram"@,
        StatefulTool::AlphaVantage => "AlphaVantage"@,
    }
}

/// The display name of a tool identity, cloned out as an owned string.
pub fn tool_name(id: StatefulTool) -> (r: String)
    ensures
        r@ == tool_name_spec(id),
{
    match id {
        StatefulTool::HttpClient => "HttpClient".to_owned(),
        StatefulTool::Google => "Google".to_owned(),
        StatefulTool::NewsApi => "NewsApi".to_owned(),
        StatefulTool::Wolfram => "Wolfram".to_owned(),
        StatefulTool::AlphaVantage => "AlphaVantage".to_owned(),
    }
}

} // verus!
