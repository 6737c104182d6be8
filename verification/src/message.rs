//! The message model: conversation turns, requested tool invocations and catalog entries.

use vstd::prelude::*;

verus! {

/// Who speaks in a conversation turn.
#[derive(Clone, Copy, Debug, PartialEq, Eq, Structural)]
pub enum Role {
    System,
    User,
    Assistant,
    Tool,
}

/// The name of a tool and its raw serialized argument payload.
#[derive(Clone, Debug, PartialEq, Eq)]
pub struct FunctionCall {
    pub name: String,
    pub arguments: String,
}

/// One tool invocation that the backend asked for.
#[derive(Clone, Debug, PartialEq, Eq)]
pub struct ToolCall {
    pub id: String,
    pub call_type: String,
    pub function: FunctionCall,
}

/// The mathematical content of a `ToolCall`.
pub ghost struct ToolCallView {
    pub id: Seq<char>,
    pub call_type: Seq<char>,
    pub name: Seq<char>,
    pub arguments: Seq<char>,
}

impl View for ToolCall {
    type V = ToolCallView;

    open spec fn view(&self) -> ToolCallView {
        ToolCallView {
            id: self.id@,
            call_type: self.call_type@,
            name: self.function.name@,
            arguments: self.function.arguments@,
        }
    }
}

/// The contents of a sequence of tool calls, in order.
pub open spec fn tool_call_views(calls: Seq<ToolCall>) -> Seq<ToolCallView> {
    Seq::new(calls.len(), |i: int| calls[i]@)
}

/// The contents of an optional list of tool calls.
pub open spec fn optional_tool_call_views(calls: Option<Vec<ToolCall>>) -> Option<
    Seq<ToolCallView>,
> {
    match calls {
        Some(list) => Some(tool_call_views(list@)),
        None => None,
    }
}

/// The content of an optional string.
pub open spec fn optional_text(text: Option<String>) -> Option<Seq<char>> {
    match text {
        Some(s) => Some(s@),
        None => None,
    }
}

impl ToolCall {
    /// A tool call with the same contents.
    pub fn duplicate(&self) -> (r: ToolCall)
        ensures
            r@ == self@,
    {
        ToolCall {
            id: self.id.clone(),
            call_type: self.call_type.clone(),
            function: FunctionCall {
                name: self.function.name.clone(),
                arguments: self.function.arguments.clone(),
            },
        }
    }
}

/// A list of tool calls with the same contents in the same order.
pub fn duplicate_tool_calls(calls: &Vec<ToolCall>) -> (r: Vec<ToolCall>)
    ensures
        tool_call_views(r@) == tool_call_views(calls@),
{
    let mut r: Vec<ToolCall> = Vec::new();
    let mut i: usize = 0;
    while i < calls.len()
        invariant
            i <= calls.len(),
            r.len() == i,
            forall|j: int| 0 <= j < i ==> r[j]@ == calls[j]@,
        decreases calls.len() - i,
    {
        r.push(calls[i].duplicate());
        i = i + 1;
    }
    assert(tool_call_views(r@) =~= tool_call_views(calls@));
    r
}

/// One conversation turn.
#[derive(Clone, Debug, PartialEq, Eq)]
pub struct Message {
    pub role: Role,
    pub content: String,
    pub tool_calls: Option<Vec<ToolCall>>,
    pub tool_call_id: Option<String>,
}

/// The mathematical content of a `Message`.
pub ghost struct MessageView {
    pub role: Role,
    pub content: Seq<char>,
    pub tool_calls: Option<Seq<ToolCallView>>,
    pub tool_call_id: Option<Seq<char>>,
}

impl View for Message {
    type V = MessageView;

    open spec fn view(&self) -> MessageView {
        MessageView {
            role: self.role,
            content: self.content@,
            tool_calls: optional_tool_call_views(self.tool_calls),
            tool_call_id: optional_text(self.tool_call_id),
        }
    }
}

/// The contents of a sequence of messages, in order.
pub open spec fn message_views(messages: Seq<Message>) -> Seq<MessageView> {
    Seq::new(messages.len(), |i: int| messages[i]@)
}

/// A message without tool calls and without a tool call identifier.
pub open spec fn plain_message(role: Role, content: Seq<char>) -> MessageView {
    MessageView { role, content, tool_calls: None, tool_call_id: None }
}

/// The assistant turn that carries the backend's content and the tool calls it asked for.
pub open spec fn tool_request_message(
    content: Seq<char>,
    calls: Seq<ToolCallView>,
) -> MessageView {
    MessageView { role: Role::Assistant, content, tool_calls: Some(calls), tool_call_id: None }
}

/// The tool turn that answers the call identified by `tool_call_id`.
pub open spec fn tool_message(content: Seq<char>, tool_call_id: Seq<char>) -> MessageView {
    MessageView {
        role: Role::Tool,
        content,
        tool_calls: None,
        tool_call_id: Some(tool_call_id),
    }
}

impl Message {
    /// A tool turn carries the identifier of the call it answers; no other turn carries one.
    pub open spec fn well_formed(&self) -> bool {
        (self.role == Role::Tool) == (self.tool_call_id is Some)
    }

    /// A system turn.
    pub fn system(content: String) -> (r: Message)
        ensures
            r@ == plain_message(Role::System, content@),
            r.well_formed(),
    {
        Message { role: Role::System, content, tool_calls: None, tool_call_id: None }
    }

    /// A user turn.
    pub fn user(content: String) -> (r: Message)
        ensures
            r@ == plain_message(Role::User, content@),
            r.well_formed(),
    {
        Message { role: Role::User, content, tool_calls: None, tool_call_id: None }
    }

    /// An assistant turn without tool calls.
    pub fn assistant(content: String) -> (r: Message)
        ensures
            r@ == plain_message(Role::Assistant, content@),
            r.well_formed(),
    {
        Message { role: Role::Assistant, content, tool_calls: None, tool_call_id: None }
    }

    /// An assistant turn that carries the tool calls the backend asked for.
    pub fn assistant_with_tool_calls(content: String, tool_calls: Vec<ToolCall>) -> (r: Message)
        ensures
            r@ == tool_request_message(content@, tool_call_views(tool_calls@)),
            r.well_formed(),
    {
        Message { role: Role::Assistant, content, tool_calls: Some(tool_calls), tool_call_id: None }
    }

    /// The tool turn that answers the call identified by `tool_call_id`.
    pub fn tool(content: String, tool_call_id: String) -> (r: Message)
        ensures
            r@ == tool_message(content@, tool_call_id@),
            r.well_formed(),
    {
        Message { role: Role::Tool, content, tool_calls: None, tool_call_id: Some(tool_call_id) }
    }
}

impl Message {
    /// A message with the same contents.
    pub fn duplicate(&self) -> (r: Message)
        ensures
            r@ == self@,
            r.well_formed() == self.well_formed(),
    {
        let tool_calls = match &self.tool_calls {
            Some(calls) => Some(duplicate_tool_calls(calls)),
            None => None,
        };
        let tool_call_id = match &self.tool_call_id {
            Some(id) => Some(id.clone()),
            None => None,
        };
        Message { role: self.role, content: self.content.clone(), tool_calls, tool_call_id }
    }
}

/// A list of messages with the same contents in the same order.
pub fn duplicate_messages(messages: &Vec<Message>) -> (r: Vec<Message>)
    ensures
        message_views(r@) == message_views(messages@),
{
    let mut r: Vec<Message> = Vec::new();
    let mut i: usize = 0;
    while i < messages.len()
        invariant
            i <= messages.len(),
            r.len() == i,
            forall|j: int| 0 <= j < i ==> r[j]@ == messages[j]@,
        decreases messages.len() - i,
    {
        r.push(messages[i].duplicate());
        i = i + 1;
    }
    assert(message_views(r@) =~= message_views(messages@));
    r
}

/// One property of a tool's parameter object.
#[derive(Clone, Debug, PartialEq, Eq)]
pub struct ParameterProperty {
    pub name: String,
    pub value_type: String,
    pub description: String,
}

/// The parameter schema of a tool: an object with typed properties, some of them required.
#[derive(Clone, Debug, PartialEq, Eq)]
pub struct ParameterSchema {
    pub schema_type: String,
    pub properties: Vec<ParameterProperty>,
    pub required: Vec<String>,
}

/// Name, description and parameter schema of a tool.
#[derive(Clone, Debug, PartialEq, Eq)]
pub struct FunctionDefinition {
    pub name: String,
    pub description: String,
    pub parameters: ParameterSchema,
}

/// One entry of the tool catalog.
#[derive(Clone, Debug, PartialEq, Eq)]
pub struct ToolDefinition {
    pub tool_type: String,
    pub function: FunctionDefinition,
}

/// The mathematical content of a `ParameterProperty`.
pub ghost struct ParameterPropertyView {
    pub name: Seq<char>,
    pub value_type: Seq<char>,
    pub description: Seq<char>,
}

/// The mathematical content of a `ToolDefinition`.
pub ghost struct ToolDefinitionView {
    pub tool_type: Seq<char>,
    pub name: Seq<char>,
    pub description: Seq<char>,
    pub schema_type: Seq<char>,
    pub properties: Seq<ParameterPropertyView>,
    pub required: Seq<Seq<char>>,
}

impl View for ParameterProperty {
    type V = ParameterPropertyView;

    open spec fn view(&self) -> ParameterPropertyView {
        ParameterPropertyView {
            name: self.name@,
            value_type: self.value_type@,
            description: self.description@,
        }
    }
}

impl View for ToolDefinition {
    type V = ToolDefinitionView;

    open spec fn view(&self) -> ToolDefinitionView {
        ToolDefinitionView {
            tool_type: self.tool_type@,
            name: self.function.name@,
            description: self.function.description@,
            schema_type: self.function.parameters.schema_type@,
            properties: Seq::new(
                self.function.parameters.properties.len() as nat,
                |i: int| self.function.parameters.properties[i]@,
            ),
            required: Seq::new(
                self.function.parameters.required.len() as nat,
                |i: int| self.function.parameters.required[i]@,
            ),
        }
    }
}

/// What the backend answered: text, the tool calls it asks for, and why it stopped.
#[derive(Debug, PartialEq, Eq)]
pub struct ChatResponse {
    pub content: String,
    pub tool_calls: Option<Vec<ToolCall>>,
    pub finish_reason: String,
}

} // verus!
