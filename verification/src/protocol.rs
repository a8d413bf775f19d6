//! Routing of tool-call requests: which read operation a request asks for,
//! and which error answers a request that asks for none.

use vstd::prelude::*;
use crate::text::str_eq;

verus! {

/// The error code for a request that is not well-formed JSON.
pub const PARSE_ERROR: i64 = -32700;

/// The error code for a request without a method.
pub const INVALID_REQUEST: i64 = -32600;

/// The error code for a request with a method that is not offered.
pub const METHOD_NOT_FOUND: i64 = -32601;

/// The error code for a tool call that failed.
pub const TOOL_FAILED: i64 = -32000;

/// A read operation that is offered as a tool.
#[derive(Debug, Clone, Copy, PartialEq, Eq, Structural)]
pub enum Tool {
    /// Validate a file.
    Validate,
    /// Extract the materials of a model.
    ExtractMaterials,
    /// Describe a document.
    GetInfo,
    /// Find materials by kind and property.
    QueryMaterials,
}

/// What is to be done with a request.
#[derive(Debug, Clone, Copy, PartialEq, Eq, Structural)]
pub enum Route {
    /// Answer with the list of tools.
    ListTools,
    /// Run a tool.
    Call(Tool),
    /// Answer that there is no such tool.
    UnknownTool,
    /// Answer that the method is not offered.
    MethodNotFound,
    /// Answer that the request is invalid.
    InvalidRequest,
}

impl Tool {
    /// The name under which the tool is called.
    pub open spec fn label(self) -> Seq<char> {
        match self {
            Tool::Validate => "agsi_validate"@,
            Tool::ExtractMaterials => "agsi_extract_materials"@,
            Tool::GetInfo => "agsi_get_info"@,
            Tool::QueryMaterials => "agsi_query_materials"@,
        }
    }

    /// The tool that is called under `name`, if there is one.
    pub open spec fn named(name: Seq<char>) -> Option<Tool> {
        if name == Tool::Validate.label() {
            Some(Tool::Validate)
        } else if name == Tool::ExtractMaterials.label() {
            Some(Tool::ExtractMaterials)
        } else if name == Tool::GetInfo.label() {
            Some(Tool::GetInfo)
        } else if name == Tool::QueryMaterials.label() {
            Some(Tool::QueryMaterials)
        } else {
            None
        }
    }

    /// The name under which the tool is called.
    pub fn name(&self) -> (name: &'static str)
        ensures
            name@ == self.label(),
    {
        match self {
            Tool::Validate => "agsi_validate",
            Tool::ExtractMaterials => "agsi_extract_materials",
            Tool::GetInfo => "agsi_get_info",
            Tool::QueryMaterials => "agsi_query_materials",
        }
    }

    /// The tool that is called under `name`, if there is one.
    pub fn from_name(name: &str) -> (tool: Option<Tool>)
        ensures
            tool == Tool::named(name@),
    {
        if str_eq(name, "agsi_validate") {
            Some(Tool::Validate)
        } else if str_eq(name, "agsi_extract_materials") {
            Some(Tool::ExtractMaterials)
        } else if str_eq(name, "agsi_get_info") {
            Some(Tool::GetInfo)
        } else if str_eq(name, "agsi_query_materials") {
            Some(Tool::QueryMaterials)
        } else {
            None
        }
    }
}

impl Route {
    /// The route of a request with the given method, if it has one, which
    /// names the given tool where it is a call.
    pub open spec fn of(method: Option<Seq<char>>, tool: Seq<char>) -> Route {
        match method {
            None => Route::InvalidRequest,
            Some(m) => if m == "tools/list"@ {
                Route::ListTools
            } else if m == "tools/call"@ {
                match Tool::named(tool) {
                    Some(t) => Route::Call(t),
                    None => Route::UnknownTool,
                }
            } else {
                Route::MethodNotFound
            },
        }
    }

    /// The error code that answers a request on this route, where an error
    /// answers it. An unknown tool is answered within a result, not by an
    /// error.
    pub open spec fn code(self) -> Option<i64> {
        match self {
            Route::MethodNotFound => Some(METHOD_NOT_FOUND),
            Route::InvalidRequest => Some(INVALID_REQUEST),
            _ => None,
        }
    }

    /// The error code that answers a request on this route, where an error
    /// answers it.
    pub fn error_code(&self) -> (code: Option<i64>)
        ensures
            code == self.code(),
    {
        match self {
            Route::MethodNotFound => Some(METHOD_NOT_FOUND),
            Route::InvalidRequest => Some(INVALID_REQUEST),
            _ => None,
        }
    }
}

/// Decides what is to be done with a request, given its method, if it has
/// one, and the name of the tool that it calls.
pub fn route(method: Option<&str>, tool: &str) -> (r: Route)
    ensures
        r == Route::of(
            match method {
                Some(m) => Some(m@),
                None => None::<Seq<char>>,
            },
            tool@,
        ),
{
    match method {
        None => Route::InvalidRequest,
        Some(m) => {
            if str_eq(m, "tools/list") {
                Route::ListTools
            } else if str_eq(m, "tools/call") {
                match Tool::from_name(tool) {
                    Some(t) => Route::Call(t),
                    None => Route::UnknownTool,
                }
            } else {
                Route::MethodNotFound
            }
        },
    }
}

/// A tool is found again under its own name.
pub proof fn lemma_tool_name_round_trip(tool: Tool)
    ensures
        Tool::named(tool.label()) == Some(tool),
{
    reveal_strlit("agsi_validate");
    reveal_strlit("agsi_extract_materials");
    reveal_strlit("agsi_get_info");
    reveal_strlit("agsi_query_materials");
    assert("agsi_validate"@.len() == 13);
    assert("agsi_extract_materials"@.len() == 22);
    assert("agsi_get_info"@[5] == 'g');
    assert("agsi_validate"@[5] == 'v');
    assert("agsi_query_materials"@.len() == 20);
}

/// A call of a tool under its own name is routed to that tool.
pub proof fn lemma_call_reaches_tool(tool: Tool)
    ensures
        Route::of(Some("tools/call"@), tool.label()) == Route::Call(tool),
{
    lemma_tool_name_round_trip(tool);
    reveal_strlit("tools/call");
    reveal_strlit("tools/list");
    assert("tools/call"@[6] == 'c');
    assert("tools/list"@[6] == 'l');
}

} // verus!
