//! Decisions of the MCP message dispatcher: which tools are registered, where
//! a request goes, and whether a tool call can run.

use vstd::prelude::*;
use crate::server_errors::ServerError;
use crate::text::{str_chars, chars_to_string, chars_eq, append_str};

verus! {

/// Where an MCP request goes.
#[derive(Debug, Clone, Copy, PartialEq, Eq, Structural)]
pub enum McpRoute {
    /// `tools/list`: describe the registered tools.
    ListTools,
    /// `tools/call`: run one tool.
    CallTool,
}

/// An MCP message, as far as the dispatcher decides on it: a request with its
/// method and, for a tool call, the tool name read from its parameters (absent
/// when it has none, or the text of the error that reading them gave); a
/// response; or a notification.
#[derive(Debug)]
pub enum McpMessageModel {
    Request { method: String, params: Option<Result<String, String>> },
    Response,
    Notification,
}

/// What the dispatcher answers a message with.
#[derive(Debug)]
pub enum DispatchPlan {
    /// The list of registered tools.
    ListTools,
    /// The result of running the named tool.
    CallTool(String),
    /// The response itself, handed back as it came.
    PassResponse,
    /// A `{"status": "ok"}` acknowledgement with no id.
    Acknowledge,
}

/// `r` is the dispatcher's answer to message `m` with tools `tools`: a
/// response is handed back, a notification acknowledged, and a request routed
/// by its method; a tool call needs readable parameters and a registered tool.
pub open spec fn dispatch_outcome(tools: Seq<Seq<char>>, m: McpMessageModel, r: Result<DispatchPlan, ServerError>) -> bool {
    match m {
        McpMessageModel::Response => r matches Ok(DispatchPlan::PassResponse),
        McpMessageModel::Notification => r matches Ok(DispatchPlan::Acknowledge),
        McpMessageModel::Request { method, params } => if method@ == "tools/list"@ {
            r matches Ok(DispatchPlan::ListTools)
        } else if method@ == "tools/call"@ {
            match params {
                None => r matches Err(ServerError::InvalidRequest(e)) && e@ == "Missing params"@,
                Some(Err(p)) => r matches Err(ServerError::InvalidRequest(e)) && e@ == "Invalid tool call: "@ + p@,
                Some(Ok(name)) => if tools.contains(name@) {
                    r matches Ok(DispatchPlan::CallTool(n)) && n@ == name@
                } else {
                    r matches Err(ServerError::Unsupported(e)) && e@ == "Unknown tool: "@ + name@
                },
            }
        } else {
            r matches Err(ServerError::Unsupported(e)) && e@ == "Unknown method: "@ + method@
        },
    }
}

/// The tools after registering `name`: a name is registered once, and
/// registering it again keeps it where it was (its handler is replaced).
pub open spec fn registered(tools: Seq<Seq<char>>, name: Seq<char>) -> Seq<Seq<char>> {
    if tools.contains(name) {
        tools
    } else {
        tools.push(name)
    }
}

/// The registry of tool names a dispatcher answers for.
#[derive(Debug, Clone)]
pub struct McpDispatcher {
    tools: Vec<String>,
}

impl View for McpDispatcher {
    type V = Seq<Seq<char>>;

    closed spec fn view(&self) -> Seq<Seq<char>> {
        self.tools@.map_values(|s: String| s@)
    }
}

impl McpDispatcher {
    /// Each tool is registered once.
    pub open spec fn wf(&self) -> bool {
        self@.no_duplicates()
    }

    /// A dispatcher with no tools.
    pub fn new() -> (r: Self)
        ensures
            r.wf(),
            r@ == Seq::<Seq<char>>::empty(),
    {
        let r = McpDispatcher { tools: Vec::new() };
        assert(r@ =~= Seq::<Seq<char>>::empty());
        r
    }

    /// Whether a tool of this name is registered.
    pub fn has_tool(&self, name: &str) -> (r: bool)
        ensures
            r == self@.contains(name@),
    {
        let n = str_chars(name);
        let mut i: usize = 0;
        while i < self.tools.len()
            invariant
                i <= self.tools@.len(),
                n@ == name@,
                forall|k: int| 0 <= k < i ==> self@[k] != name@,
            decreases self.tools@.len() - i,
        {
            let t = str_chars(self.tools[i].as_str());
            assert(self@[i as int] == self.tools@[i as int]@);
            if chars_eq(&t, &n) {
                assert(self@[i as int] == name@);
                return true;
            }
            i = i + 1;
        }
        proof {
            if self@.contains(name@) {
                let k = choose|k: int| 0 <= k < self@.len() && self@[k] == name@;
                assert(self@[k] != name@);
            }
        }
        false
    }

    /// Registers a tool under `name`.
    pub fn register_tool(&mut self, name: &str)
        requires
            old(self).wf(),
        ensures
            final(self).wf(),
            final(self)@ == registered(old(self)@, name@),
    {
        if !self.has_tool(name) {
            let ghost o = self@;
            self.tools.push(chars_to_string(&str_chars(name)));
            assert(self@ =~= o.push(name@));
            assert forall|i: int, j: int| 0 <= i < j < self@.len() implies self@[i] != self@[j] by {
                if j == o.len() {
                    assert(o.contains(o[i]));
                }
            }
        }
    }

    /// The registered tool names, in the order they were first registered.
    pub fn tool_names(&self) -> (r: Vec<String>)
        ensures
            r@.map_values(|s: String| s@) == self@,
    {
        let mut r: Vec<String> = Vec::new();
        let mut i: usize = 0;
        while i < self.tools.len()
            invariant
                i <= self.tools@.len(),
                r@.map_values(|s: String| s@) == self@.subrange(0, i as int),
            decreases self.tools@.len() - i,
        {
            let ghost o = r@.map_values(|s: String| s@);
            let s = chars_to_string(&str_chars(self.tools[i].as_str()));
            r.push(s);
            assert(r@.map_values(|s: String| s@) =~= o.push(self@[i as int]));
            assert(self@.subrange(0, i + 1) =~= self@.subrange(0, i as int).push(self@[i as int]));
            i = i + 1;
        }
        assert(self@.subrange(0, self@.len() as int) =~= self@);
        r
    }

    /// The description listed for a tool.
    pub fn tool_description(name: &str) -> (r: String)
        ensures
            r@ == name@ + " tool"@,
    {
        let mut d = str_chars(name);
        append_str(&mut d, " tool");
        chars_to_string(&d)
    }

    /// Where a request with this method goes; any other method is refused.
    pub fn route(method: &str) -> (r: Result<McpRoute, ServerError>)
        ensures
            method@ == "tools/list"@ ==> r == Ok::<McpRoute, ServerError>(McpRoute::ListTools),
            method@ == "tools/call"@ ==> r == Ok::<McpRoute, ServerError>(McpRoute::CallTool),
            method@ != "tools/list"@ && method@ != "tools/call"@ ==> (r matches Err(ServerError::Unsupported(m))
                && m@ == "Unknown method: "@ + method@),
    {
        proof {
            reveal_strlit("tools/list");
            reveal_strlit("tools/call");
            assert("tools/call"@[6] != "tools/list"@[6]);
        }
        let m = str_chars(method);
        let list = str_chars("tools/list");
        let call = str_chars("tools/call");
        if chars_eq(&m, &list) {
            Ok(McpRoute::ListTools)
        } else if chars_eq(&m, &call) {
            Ok(McpRoute::CallTool)
        } else {
            let mut e = str_chars("Unknown method: ");
            append_str(&mut e, method);
            Err(ServerError::Unsupported(chars_to_string(&e)))
        }
    }

    /// Whether a tool call can run: it needs parameters, and the tool must be
    /// registered.
    pub fn check_tool_call(&self, params_given: bool, tool_name: &str) -> (r: Result<(), ServerError>)
        ensures
            !params_given ==> (r matches Err(ServerError::InvalidRequest(m)) && m@ == "Missing params"@),
            params_given && !self@.contains(tool_name@) ==> (r matches Err(ServerError::Unsupported(m))
                && m@ == "Unknown tool: "@ + tool_name@),
            params_given && self@.contains(tool_name@) ==> r is Ok,
    {
        if !params_given {
            return Err(ServerError::InvalidRequest(chars_to_string(&str_chars("Missing params"))));
        }
        if !self.has_tool(tool_name) {
            let mut e = str_chars("Unknown tool: ");
            append_str(&mut e, tool_name);
            return Err(ServerError::Unsupported(chars_to_string(&e)));
        }
        Ok(())
    }

    /// What the dispatcher answers a message with.
    pub fn dispatch(&self, message: &McpMessageModel) -> (r: Result<DispatchPlan, ServerError>)
        ensures
            dispatch_outcome(self@, *message, r),
    {
        match message {
            McpMessageModel::Response => Ok(DispatchPlan::PassResponse),
            McpMessageModel::Notification => Ok(DispatchPlan::Acknowledge),
            McpMessageModel::Request { method, params } => match Self::route(method.as_str()) {
                Err(e) => Err(e),
                Ok(McpRoute::ListTools) => Ok(DispatchPlan::ListTools),
                Ok(McpRoute::CallTool) => match params {
                    None => Err(ServerError::InvalidRequest(chars_to_string(&str_chars("Missing params")))),
                    Some(Err(p)) => {
                        let mut e = str_chars("Invalid tool call: ");
                        append_str(&mut e, p.as_str());
                        Err(ServerError::InvalidRequest(chars_to_string(&e)))
                    },
                    Some(Ok(name)) => match self.check_tool_call(true, name.as_str()) {
                        Err(e) => Err(e),
                        Ok(()) => Ok(DispatchPlan::CallTool(chars_to_string(&str_chars(name.as_str())))),
                    },
                },
            },
        }
    }
}

/// A registered tool can be called, and registering keeps every tool
/// registered before and each name once.
pub proof fn law_registered_tool_is_callable(tools: Seq<Seq<char>>, name: Seq<char>)
    requires
        tools.no_duplicates(),
    ensures
        registered(tools, name).contains(name),
        registered(tools, name).no_duplicates(),
        forall|t: Seq<char>| tools.contains(t) ==> #[trigger] registered(tools, name).contains(t),
        registered(registered(tools, name), name) == registered(tools, name),
{
    if !tools.contains(name) {
        let r = tools.push(name);
        assert(r[tools.len() as int] == name);
        assert forall|i: int, j: int| 0 <= i < j < r.len() implies r[i] != r[j] by {
            if j == tools.len() {
                assert(tools.contains(tools[i]));
            }
        }
        assert forall|t: Seq<char>| tools.contains(t) implies #[trigger] r.contains(t) by {
            let k = choose|k: int| 0 <= k < tools.len() && tools[k] == t;
            assert(r[k] == t);
        }
    }
}


/// What came back from the language service for a forwarded tool request.
#[derive(Debug, Clone)]
pub enum LspExchange<T> {
    /// A response, with its result and the message of its error, if any.
    Response { result: Option<T>, error_message: Option<String> },
    /// Some other kind of message.
    OtherMessage,
    /// The request failed; the failure's text.
    Failed(String),
}

/// The reply of a navigation tool to what the language service sent back: its
/// result when there is one, else its error, an empty response, an
/// unexpected message or the failure, each as a runtime error.
pub fn lsp_tool_reply<T>(exchange: LspExchange<T>) -> (r: Result<T, ServerError>)
    ensures
        match exchange {
            LspExchange::Response { result: Some(v), .. } => r == Ok::<T, ServerError>(v),
            LspExchange::Response { result: None, error_message: Some(m) } =>
                r matches Err(ServerError::Runtime { message }) && message@ == "LSP error: "@ + m@,
            LspExchange::Response { result: None, error_message: None } =>
                r matches Err(ServerError::Runtime { message }) && message@ == "Empty LSP response"@,
            LspExchange::OtherMessage =>
                r matches Err(ServerError::Runtime { message }) && message@ == "Unexpected LSP message type"@,
            LspExchange::Failed(e) =>
                r matches Err(ServerError::Runtime { message }) && message@ == "LSP request failed: "@ + e@,
        },
{
    match exchange {
        LspExchange::Response { result: Some(v), .. } => Ok(v),
        LspExchange::Response { result: None, error_message: Some(m) } => {
            let mut t = str_chars("LSP error: ");
            append_str(&mut t, m.as_str());
            Err(ServerError::runtime(chars_to_string(&t)))
        },
        LspExchange::Response { result: None, error_message: None } =>
            Err(ServerError::runtime(chars_to_string(&str_chars("Empty LSP response")))),
        LspExchange::OtherMessage => Err(ServerError::runtime(chars_to_string(&str_chars("Unexpected LSP message type")))),
        LspExchange::Failed(e) => {
            let mut t = str_chars("LSP request failed: ");
            append_str(&mut t, e.as_str());
            Err(ServerError::runtime(chars_to_string(&t)))
        },
    }
}

} // verus!
