//! The protocol server: one JSON request per line, answered from the tool catalog and the
//! tool dispatcher, without any conversation.

use vstd::prelude::*;
use vstd::string::*;
use crate::catalog::{
    catalog, get_tool_definitions, lemma_catalog_is_the_built_in_tools, tool_definition_views,
};
use crate::executor::Executor;
use crate::json::{
    json_member, json_reading, json_rendering, json_string, member, read_json, render_json,
    string_of,
};
use crate::message::{
    ParameterProperty, ParameterPropertyView, ParameterSchema, ToolDefinition, ToolDefinitionView,
};
use crate::text::{prefixed, same_text};
use crate::tools::{
    dispatch_allows, error_text, execute_tool, outcome_view, tool_request, ToolError, ToolErrorView,
};

verus! {

/// The code of the error that answers an unknown method.
pub const METHOD_NOT_FOUND: i32 = -32601;

/// What the server reads from a request: the method, and for a tool call the tool's name and
/// its arguments as text. A field that is absent or not a string is empty.
#[derive(Debug, PartialEq, Eq)]
pub struct Request {
    pub method: String,
    pub tool_name: String,
    pub arguments: String,
}

/// The mathematical content of a `Request`.
pub ghost struct RequestView {
    pub method: Seq<char>,
    pub tool_name: Seq<char>,
    pub arguments: Seq<char>,
}

impl View for Request {
    type V = RequestView;

    open spec fn view(&self) -> RequestView {
        RequestView {
            method: self.method@,
            tool_name: self.tool_name@,
            arguments: self.arguments@,
        }
    }
}

/// A catalog entry in the shape that a controller is shown: name, description and input
/// schema.
#[derive(Clone, Debug, PartialEq, Eq)]
pub struct ToolDescriptor {
    pub name: String,
    pub description: String,
    pub input_schema: ParameterSchema,
}

/// The mathematical content of a `ToolDescriptor`.
pub ghost struct ToolDescriptorView {
    pub name: Seq<char>,
    pub description: Seq<char>,
    pub schema_type: Seq<char>,
    pub properties: Seq<ParameterPropertyView>,
    pub required: Seq<Seq<char>>,
}

impl View for ToolDescriptor {
    type V = ToolDescriptorView;

    open spec fn view(&self) -> ToolDescriptorView {
        ToolDescriptorView {
            name: self.name@,
            description: self.description@,
            schema_type: self.input_schema.schema_type@,
            properties: Seq::new(
                self.input_schema.properties.len() as nat,
                |i: int| self.input_schema.properties[i]@,
            ),
            required: Seq::new(
                self.input_schema.required.len() as nat,
                |i: int| self.input_schema.required[i]@,
            ),
        }
    }
}

/// The contents of a list of descriptors, in order.
pub open spec fn descriptor_views(tools: Seq<ToolDescriptor>) -> Seq<ToolDescriptorView> {
    Seq::new(tools.len(), |i: int| tools[i]@)
}

/// The shape in which a controller is shown a catalog entry.
pub open spec fn descriptor_of(tool: ToolDefinitionView) -> ToolDescriptorView {
    ToolDescriptorView {
        name: tool.name,
        description: tool.description,
        schema_type: tool.schema_type,
        properties: tool.properties,
        required: tool.required,
    }
}

/// The shapes in which a controller is shown the entries of a catalog, in order.
pub open spec fn descriptors_of(tools: Seq<ToolDefinitionView>) -> Seq<ToolDescriptorView> {
    Seq::new(tools.len(), |i: int| descriptor_of(tools[i]))
}

/// Translates a catalog entry into the shape that a controller is shown.
pub fn describe_tool(tool: &ToolDefinition) -> (r: ToolDescriptor)
    ensures
        r@ == descriptor_of(tool@),
{
    let schema = &tool.function.parameters;
    let mut properties: Vec<ParameterProperty> = Vec::new();
    let mut i: usize = 0;
    while i < schema.properties.len()
        invariant
            i <= schema.properties.len(),
            properties.len() == i,
            forall|j: int| 0 <= j < i ==> properties[j]@ == schema.properties[j]@,
        decreases schema.properties.len() - i,
    {
        let property = &schema.properties[i];
        properties.push(
            ParameterProperty {
                name: property.name.clone(),
                value_type: property.value_type.clone(),
                description: property.description.clone(),
            },
        );
        i = i + 1;
    }
    let mut required: Vec<String> = Vec::new();
    let mut k: usize = 0;
    while k < schema.required.len()
        invariant
            k <= schema.required.len(),
            required.len() == k,
            forall|j: int| 0 <= j < k ==> required[j]@ == schema.required[j]@,
        decreases schema.required.len() - k,
    {
        required.push(schema.required[k].clone());
        k = k + 1;
    }
    let r = ToolDescriptor {
        name: tool.function.name.clone(),
        description: tool.function.description.clone(),
        input_schema: ParameterSchema {
            schema_type: schema.schema_type.clone(),
            properties,
            required,
        },
    };
    assert(r@.properties =~= tool@.properties);
    assert(r@.required =~= tool@.required);
    r
}

/// Translates a catalog into the shape that a controller is shown, entry by entry.
pub fn describe_tools(tools: &Vec<ToolDefinition>) -> (r: Vec<ToolDescriptor>)
    ensures
        descriptor_views(r@) == descriptors_of(tool_definition_views(tools@)),
{
    let mut r: Vec<ToolDescriptor> = Vec::new();
    let mut i: usize = 0;
    while i < tools.len()
        invariant
            i <= tools.len(),
            r.len() == i,
            forall|j: int| 0 <= j < i ==> r[j]@ == descriptor_of(tools[j]@),
        decreases tools.len() - i,
    {
        r.push(describe_tool(&tools[i]));
        i = i + 1;
    }
    assert(descriptor_views(r@) =~= descriptors_of(tool_definition_views(tools@)));
    r
}

/// What the server answers.
#[derive(Debug, PartialEq, Eq)]
pub enum Response {
    /// The server's identity and capabilities.
    Initialized { protocol_version: String, server_name: String, server_version: String },
    /// The tool catalog, as a controller is shown it.
    Tools(Vec<ToolDescriptor>),
    /// The text that a tool call gave, flagged where it reports an error.
    ToolOutcome { text: String, is_error: bool },
    /// A protocol-level error.
    Failure { code: i32, message: String },
}

/// The mathematical content of a `Response`.
pub ghost enum ResponseView {
    Initialized { protocol_version: Seq<char>, server_name: Seq<char>, server_version: Seq<char> },
    Tools(Seq<ToolDescriptorView>),
    ToolOutcome { text: Seq<char>, is_error: bool },
    Failure { code: int, message: Seq<char> },
}

impl View for Response {
    type V = ResponseView;

    open spec fn view(&self) -> ResponseView {
        match self {
            Response::Initialized { protocol_version, server_name, server_version } => {
                ResponseView::Initialized {
                    protocol_version: protocol_version@,
                    server_name: server_name@,
                    server_version: server_version@,
                }
            },
            Response::Tools(tools) => ResponseView::Tools(descriptor_views(tools@)),
            Response::ToolOutcome { text, is_error } => ResponseView::ToolOutcome {
                text: text@,
                is_error: *is_error,
            },
            Response::Failure { code, message } => ResponseView::Failure {
                code: *code as int,
                message: message@,
            },
        }
    }
}

/// The string that a JSON value holds, empty where it holds none.
pub open spec fn string_or_empty(value: serde_json::Value) -> Seq<char> {
    match json_string(value) {
        Some(text) => text,
        None => Seq::empty(),
    }
}

/// What the server reads from a request value.
pub open spec fn request_of(value: serde_json::Value) -> RequestView {
    RequestView {
        method: string_or_empty(json_member(value, "method"@)),
        tool_name: string_or_empty(json_member(json_member(value, "params"@), "name"@)),
        arguments: json_rendering(json_member(json_member(value, "params"@), "arguments"@)),
    }
}

/// What the server reads from an input line, nothing where the line is not JSON.
pub open spec fn request_on_line(line: Seq<char>) -> Option<RequestView> {
    match json_reading(line) {
        Ok(value) => Some(request_of(value)),
        Err(_) => None,
    }
}

/// The content of an optional request.
pub open spec fn optional_request_view(request: Option<Request>) -> Option<RequestView> {
    match request {
        Some(r) => Some(r@),
        None => None,
    }
}

fn text_or_empty(value: &serde_json::Value) -> (r: String)
    ensures
        r@ == string_or_empty(*value),
{
    match string_of(value) {
        Some(text) => text,
        None => String::new(),
    }
}

/// Reads a request from an input line. A line that is not JSON gives nothing.
pub fn parse_request(line: &str) -> (r: Option<Request>)
    ensures
        optional_request_view(r) == request_on_line(line@),
{
    match read_json(line) {
        Err(_) => None,
        Ok(value) => {
            let method = text_or_empty(member(&value, "method"));
            let params = member(&value, "params");
            let tool_name = text_or_empty(member(params, "name"));
            let arguments = render_json(member(params, "arguments"));
            Some(Request { method, tool_name, arguments })
        },
    }
}

/// The answer to `initialize`.
pub open spec fn initialized() -> ResponseView {
    ResponseView::Initialized {
        protocol_version: "2024-11-05"@,
        server_name: "aishell"@,
        server_version: "0.1.0"@,
    }
}

/// The answer to a method that the server does not know.
pub open spec fn method_not_found(method: Seq<char>) -> ResponseView {
    ResponseView::Failure {
        code: METHOD_NOT_FOUND as int,
        message: "Method not found: "@ + method,
    }
}

/// The answer to a tool call with this outcome: the text, or the report of the error with
/// the error flag.
pub open spec fn tool_call_answer(outcome: Result<Seq<char>, ToolErrorView>) -> ResponseView {
    match outcome {
        Ok(text) => ResponseView::ToolOutcome { text, is_error: false },
        Err(error) => ResponseView::ToolOutcome {
            text: "Error: "@ + error_text(error),
            is_error: true,
        },
    }
}

/// Wraps the outcome of a tool call: an error of the dispatcher is reported in the same
/// shape as a text, with the error flag set.
pub fn tool_call_response(outcome: Result<String, ToolError>) -> (r: Response)
    ensures
        r@ == tool_call_answer(outcome_view(outcome)),
{
    match outcome {
        Ok(text) => Response::ToolOutcome { text, is_error: false },
        Err(error) => {
            let report = error.message();
            Response::ToolOutcome { text: prefixed("Error: ", report.as_str()), is_error: true }
        },
    }
}

/// Whether a method is one that the server knows.
pub open spec fn is_method(method: Seq<char>) -> bool {
    method == "initialize"@ || method == "tools/list"@ || method == "tools/call"@
}

/// Whether `response` answers `request`: `initialize` with the server's identity,
/// `tools/list` with the catalog, `tools/call` with what some outcome of dispatching the call is
/// wrapped into, any other method with the method-not-found error.
pub open spec fn answers_request(request: RequestView, response: ResponseView) -> bool {
    if request.method == "initialize"@ {
        response == initialized()
    } else if request.method == "tools/list"@ {
        response == ResponseView::Tools(descriptors_of(catalog()))
    } else if request.method == "tools/call"@ {
        exists|outcome: Result<Seq<char>, ToolErrorView>|
            #[trigger] dispatch_allows(
                tool_request(request.tool_name, request.arguments),
                outcome,
            ) && response == tool_call_answer(outcome)
    } else {
        response == method_not_found(request.method)
    }
}

/// A tool call is always answered with a tool outcome, never with a protocol error; where
/// the call does not parse, with the report of that error and the error flag.
pub proof fn lemma_tool_call_answer_shape(request: RequestView, response: ResponseView)
    requires
        answers_request(request, response),
        request.method == "tools/call"@,
    ensures
        response is ToolOutcome,
        tool_request(request.tool_name, request.arguments) matches Err(error) ==> response
            == tool_call_answer(Err(error)),
{
    reveal_strlit("initialize");
    reveal_strlit("tools/list");
    reveal_strlit("tools/call");
    assert("initialize"@[0] == 'i');
    assert("tools/list"@[6] == 'l');
    assert("tools/call"@[6] == 'c');
    assert("tools/call"@[0] == 't');
}

/// `tools/list` is answered with exactly the four built-in tools `bash`, `read`, `write` and
/// `list`, each with a description that is not empty and with the schema of the catalog:
/// `command` required for `bash`, `path` for `read`, `path` and `content` for `write`,
/// nothing for `list`.
pub proof fn lemma_tools_list_answer(request: RequestView, response: ResponseView)
    requires
        answers_request(request, response),
        request.method == "tools/list"@,
    ensures
        response matches ResponseView::Tools(tools) && {
            &&& tools.len() == 4
            &&& tools[0].name == "bash"@
            &&& tools[1].name == "read"@
            &&& tools[2].name == "write"@
            &&& tools[3].name == "list"@
            &&& forall|i: int| 0 <= i < 4 ==> (#[trigger] tools[i]).description.len() > 0
            &&& tools[0].required == seq!["command"@]
            &&& tools[1].required == seq!["path"@]
            &&& tools[2].required == seq!["path"@, "content"@]
            &&& tools[3].required.len() == 0
        },
{
    reveal_strlit("initialize");
    reveal_strlit("tools/list");
    assert("initialize"@[0] == 'i');
    assert("tools/list"@[0] == 't');
    lemma_catalog_is_the_built_in_tools();
    let tools = descriptors_of(catalog());
    assert forall|i: int| 0 <= i < 4 implies (#[trigger] tools[i]).description.len() > 0 by {
        assert(tools[i].description == catalog()[i].description);
    }
}

/// The protocol server: it serves every request from one executor.
pub struct MCPServer<E: Executor> {
    executor: E,
}

impl<E: Executor> MCPServer<E> {
    /// The executor that tool calls are dispatched to.
    pub closed spec fn spec_executor(&self) -> E {
        self.executor
    }

    /// A server that dispatches tool calls to `executor`.
    pub fn new(executor: E) -> (r: Self)
        ensures
            r.spec_executor() == executor,
    {
        MCPServer { executor }
    }

    /// The executor of this server.
    pub fn executor(&self) -> (r: &E)
        ensures
            *r == self.spec_executor(),
    {
        &self.executor
    }

    /// Answers one request: `initialize` with the server's identity, `tools/list` with the
    /// catalog, `tools/call` by dispatching the call and wrapping its outcome, any other
    /// method with the method-not-found error.
    pub fn handle_request(&self, request: &Request) -> (r: Response)
        ensures
            answers_request(request@, r@),
    {
        let method = request.method.as_str();
        if same_text(method, "initialize") {
            Response::Initialized {
                protocol_version: String::from_str("2024-11-05"),
                server_name: String::from_str("aishell"),
                server_version: String::from_str("0.1.0"),
            }
        } else if same_text(method, "tools/list") {
            let tools = get_tool_definitions();
            Response::Tools(describe_tools(&tools))
        } else if same_text(method, "tools/call") {
            let outcome = execute_tool(
                request.tool_name.as_str(),
                request.arguments.as_str(),
                &self.executor,
            );
            let r = tool_call_response(outcome);
            assert(dispatch_allows(
                tool_request(request@.tool_name, request@.arguments),
                outcome_view(outcome),
            ));
            r
        } else {
            Response::Failure {
                code: METHOD_NOT_FOUND,
                message: prefixed("Method not found: ", method),
            }
        }
    }

    /// Answers one input line. A line that is not JSON is skipped: it gets no answer. Any
    /// other line is answered as its request is.
    pub fn handle_line(&self, line: &str) -> (r: Option<Response>)
        ensures
            match request_on_line(line@) {
                None => r is None,
                Some(request) => r matches Some(response) && answers_request(request, response@),
            },
    {
        match parse_request(line) {
            None => None,
            Some(request) => Some(self.handle_request(&request)),
        }
    }
}

} // verus!
