//! The JSON shapes in which the protocol server writes its answers.

use vstd::prelude::*;
use vstd::string::*;
use crate::json::{
    flag_value, json_of_flag, json_of_items, json_of_members, json_of_number, json_of_text,
    json_rendering, list_value, member_views, number_value, object_value, render_json, text_value,
};
use crate::message::{ParameterPropertyView, ParameterSchema};
use crate::executor::Executor;
use crate::protocol::{
    answers_request, request_on_line, MCPServer, Response, ResponseView, ToolDescriptor,
    ToolDescriptorView,
};

verus! {

/// The content blocks of a text: one block of type `text`.
pub open spec fn content_json(text: Seq<char>) -> serde_json::Value {
    json_of_items(
        seq![
            json_of_members(
                seq![("type"@, json_of_text("text"@)), ("text"@, json_of_text(text))],
            ),
        ],
    )
}

/// The member that describes one property of a parameter object, under the property's name.
pub open spec fn property_member(property: ParameterPropertyView) -> (
    Seq<char>,
    serde_json::Value,
) {
    (
        property.name,
        json_of_members(
            seq![
                ("type"@, json_of_text(property.value_type)),
                ("description"@, json_of_text(property.description)),
            ],
        ),
    )
}

/// The members that describe the properties of a parameter object, in order.
pub open spec fn property_members(properties: Seq<ParameterPropertyView>) -> Seq<
    (Seq<char>, serde_json::Value),
> {
    Seq::new(properties.len(), |i: int| property_member(properties[i]))
}

/// The JSON strings of some texts, in order.
pub open spec fn text_items(texts: Seq<Seq<char>>) -> Seq<serde_json::Value> {
    Seq::new(texts.len(), |i: int| json_of_text(texts[i]))
}

/// The JSON schema of a parameter object.
pub open spec fn schema_json(
    schema_type: Seq<char>,
    properties: Seq<ParameterPropertyView>,
    required: Seq<Seq<char>>,
) -> serde_json::Value {
    json_of_members(
        seq![
            ("type"@, json_of_text(schema_type)),
            ("properties"@, json_of_members(property_members(properties))),
            ("required"@, json_of_items(text_items(required))),
        ],
    )
}

/// The JSON object that shows a tool: `name`, `description` and `inputSchema`.
pub open spec fn descriptor_json(tool: ToolDescriptorView) -> serde_json::Value {
    json_of_members(
        seq![
            ("name"@, json_of_text(tool.name)),
            ("description"@, json_of_text(tool.description)),
            ("inputSchema"@, schema_json(tool.schema_type, tool.properties, tool.required)),
        ],
    )
}

/// The JSON objects that show some tools, in order.
pub open spec fn descriptor_items(tools: Seq<ToolDescriptorView>) -> Seq<serde_json::Value> {
    Seq::new(tools.len(), |i: int| descriptor_json(tools[i]))
}

/// The JSON object that an answer is written as.
pub open spec fn response_json(response: ResponseView) -> serde_json::Value {
    match response {
        ResponseView::Initialized { protocol_version, server_name, server_version } => {
            json_of_members(
                seq![
                    ("protocolVersion"@, json_of_text(protocol_version)),
                    (
                        "capabilities"@,
                        json_of_members(
                            seq![
                                (
                                    "tools"@,
                                    json_of_members(
                                        Seq::<(Seq<char>, serde_json::Value)>::empty(),
                                    ),
                                ),
                            ],
                        ),
                    ),
                    (
                        "serverInfo"@,
                        json_of_members(
                            seq![
                                ("name"@, json_of_text(server_name)),
                                ("version"@, json_of_text(server_version)),
                            ],
                        ),
                    ),
                ],
            )
        },
        ResponseView::Tools(tools) => json_of_members(
            seq![("tools"@, json_of_items(descriptor_items(tools)))],
        ),
        ResponseView::ToolOutcome { text, is_error } => {
            if is_error {
                json_of_members(
                    seq![("content"@, content_json(text)), ("isError"@, json_of_flag(true))],
                )
            } else {
                json_of_members(seq![("content"@, content_json(text))])
            }
        },
        ResponseView::Failure { code, message } => json_of_members(
            seq![
                (
                    "error"@,
                    json_of_members(
                        seq![
                            ("code"@, json_of_number(code)),
                            ("message"@, json_of_text(message)),
                        ],
                    ),
                ),
            ],
        ),
    }
}

fn object_of_one(key: &str, value: serde_json::Value) -> (r: serde_json::Value)
    ensures
        r == json_of_members(seq![(key@, value)]),
{
    let mut members: Vec<(String, serde_json::Value)> = Vec::new();
    members.push((String::from_str(key), value));
    assert(member_views(members@) =~= seq![(key@, value)]);
    object_value(members)
}

fn object_of_two(
    first_key: &str,
    first: serde_json::Value,
    second_key: &str,
    second: serde_json::Value,
) -> (r: serde_json::Value)
    ensures
        r == json_of_members(seq![(first_key@, first), (second_key@, second)]),
{
    let mut members: Vec<(String, serde_json::Value)> = Vec::new();
    members.push((String::from_str(first_key), first));
    members.push((String::from_str(second_key), second));
    assert(member_views(members@) =~= seq![(first_key@, first), (second_key@, second)]);
    object_value(members)
}

fn object_of_three(
    first_key: &str,
    first: serde_json::Value,
    second_key: &str,
    second: serde_json::Value,
    third_key: &str,
    third: serde_json::Value,
) -> (r: serde_json::Value)
    ensures
        r == json_of_members(
            seq![(first_key@, first), (second_key@, second), (third_key@, third)],
        ),
{
    let mut members: Vec<(String, serde_json::Value)> = Vec::new();
    members.push((String::from_str(first_key), first));
    members.push((String::from_str(second_key), second));
    members.push((String::from_str(third_key), third));
    assert(member_views(members@) =~= seq![
        (first_key@, first),
        (second_key@, second),
        (third_key@, third),
    ]);
    object_value(members)
}

fn encode_content(text: &str) -> (r: serde_json::Value)
    ensures
        r == content_json(text@),
{
    let block = object_of_two("type", text_value("text"), "text", text_value(text));
    let mut blocks: Vec<serde_json::Value> = Vec::new();
    blocks.push(block);
    assert(blocks@ =~= seq![block]);
    list_value(blocks)
}

/// Builds the JSON schema of a parameter object.
pub fn encode_schema(schema: &ParameterSchema) -> (r: serde_json::Value)
    ensures
        r == schema_json(
            schema.schema_type@,
            Seq::new(schema.properties.len() as nat, |i: int| schema.properties[i]@),
            Seq::new(schema.required.len() as nat, |i: int| schema.required[i]@),
        ),
{
    let ghost properties = Seq::new(
        schema.properties.len() as nat,
        |i: int| schema.properties[i]@,
    );
    let ghost required = Seq::new(schema.required.len() as nat, |i: int| schema.required[i]@);
    let mut members: Vec<(String, serde_json::Value)> = Vec::new();
    let mut i: usize = 0;
    while i < schema.properties.len()
        invariant
            i <= schema.properties.len(),
            members.len() == i,
            properties == Seq::new(
                schema.properties.len() as nat,
                |i: int| schema.properties[i]@,
            ),
            forall|j: int|
                0 <= j < i ==> (#[trigger] members[j]).0@ == property_member(properties[j]).0
                    && members[j].1 == property_member(properties[j]).1,
        decreases schema.properties.len() - i,
    {
        let property = &schema.properties[i];
        let described = object_of_two(
            "type",
            text_value(property.value_type.as_str()),
            "description",
            text_value(property.description.as_str()),
        );
        members.push((property.name.clone(), described));
        i = i + 1;
    }
    assert(member_views(members@) =~= property_members(properties));
    let mut names: Vec<serde_json::Value> = Vec::new();
    let mut k: usize = 0;
    while k < schema.required.len()
        invariant
            k <= schema.required.len(),
            names.len() == k,
            required == Seq::new(schema.required.len() as nat, |i: int| schema.required[i]@),
            forall|j: int| 0 <= j < k ==> names[j] == json_of_text(required[j]),
        decreases schema.required.len() - k,
    {
        names.push(text_value(schema.required[k].as_str()));
        k = k + 1;
    }
    assert(names@ =~= text_items(required));
    object_of_three(
        "type",
        text_value(schema.schema_type.as_str()),
        "properties",
        object_value(members),
        "required",
        list_value(names),
    )
}

fn encode_descriptor(tool: &ToolDescriptor) -> (r: serde_json::Value)
    ensures
        r == descriptor_json(tool@),
{
    object_of_three(
        "name",
        text_value(tool.name.as_str()),
        "description",
        text_value(tool.description.as_str()),
        "inputSchema",
        encode_schema(&tool.input_schema),
    )
}

/// Builds the JSON object that an answer is written as.
pub fn encode_response(response: &Response) -> (r: serde_json::Value)
    ensures
        r == response_json(response@),
{
    match response {
        Response::Initialized { protocol_version, server_name, server_version } => {
            let no_members: Vec<(String, serde_json::Value)> = Vec::new();
            assert(member_views(no_members@) =~= Seq::<(Seq<char>, serde_json::Value)>::empty());
            let capabilities = object_of_one("tools", object_value(no_members));
            let server_info = object_of_two(
                "name",
                text_value(server_name.as_str()),
                "version",
                text_value(server_version.as_str()),
            );
            object_of_three(
                "protocolVersion",
                text_value(protocol_version.as_str()),
                "capabilities",
                capabilities,
                "serverInfo",
                server_info,
            )
        },
        Response::Tools(tools) => {
            let mut items: Vec<serde_json::Value> = Vec::new();
            let mut i: usize = 0;
            while i < tools.len()
                invariant
                    i <= tools.len(),
                    items.len() == i,
                    forall|j: int| 0 <= j < i ==> items[j] == descriptor_json(tools[j]@),
                decreases tools.len() - i,
            {
                items.push(encode_descriptor(&tools[i]));
                i = i + 1;
            }
            assert(items@ =~= descriptor_items(response@->Tools_0));
            object_of_one("tools", list_value(items))
        },
        Response::ToolOutcome { text, is_error } => {
            if *is_error {
                object_of_two(
                    "content",
                    encode_content(text.as_str()),
                    "isError",
                    flag_value(true),
                )
            } else {
                object_of_one("content", encode_content(text.as_str()))
            }
        },
        Response::Failure { code, message } => {
            let code: i64 = *code as i64;
            object_of_one(
                "error",
                object_of_two(
                    "code",
                    number_value(code),
                    "message",
                    text_value(message.as_str()),
                ),
            )
        },
    }
}

/// The line that an answer is written as: its JSON object in compact form.
pub fn response_line(response: &Response) -> (r: String)
    ensures
        r@ == json_rendering(response_json(response@)),
{
    let value = encode_response(response);
    render_json(&value)
}

impl<E: Executor> MCPServer<E> {
    /// Answers one input line with one output line. A line that is not JSON is skipped: it
    /// gets no answer. Any other line gets the JSON text of an answer to its request.
    pub fn respond(&self, line: &str) -> (r: Option<String>)
        ensures
            match request_on_line(line@) {
                None => r is None,
                Some(request) => r matches Some(text) && exists|response: ResponseView|
                    #[trigger] answers_request(request, response) && text@ == json_rendering(
                        response_json(response),
                    ),
            },
    {
        match self.handle_line(line) {
            None => None,
            Some(response) => {
                let text = response_line(&response);
                assert(answers_request(request_on_line(line@)->Some_0, response@));
                Some(text)
            },
        }
    }
}

} // verus!
