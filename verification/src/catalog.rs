//! The tool catalog: the four built-in tools as they are advertised to the reasoning backend
//! and to a protocol controller.

use vstd::prelude::*;
use vstd::string::*;
use crate::message::{
    FunctionDefinition, ParameterProperty, ParameterPropertyView, ParameterSchema, ToolDefinition,
    ToolDefinitionView,
};

verus! {

/// A string-typed property of a parameter object.
pub open spec fn string_property(name: Seq<char>, description: Seq<char>) -> ParameterPropertyView {
    ParameterPropertyView { name, value_type: "string"@, description }
}

/// A catalog entry for a function tool whose parameters form an object.
pub open spec fn function_tool(
    name: Seq<char>,
    description: Seq<char>,
    properties: Seq<ParameterPropertyView>,
    required: Seq<Seq<char>>,
) -> ToolDefinitionView {
    ToolDefinitionView {
        tool_type: "function"@,
        name,
        description,
        schema_type: "object"@,
        properties,
        required,
    }
}

/// The entry of the `bash` tool.
pub open spec fn bash_tool() -> ToolDefinitionView {
    function_tool(
        "bash"@,
        "Execute a bash command and return the output. Use this for running shell commands, git operations, package management, etc."@,
        seq![string_property("command"@, "The bash command to execute"@)],
        seq!["command"@],
    )
}

/// The entry of the `read` tool.
pub open spec fn read_tool() -> ToolDefinitionView {
    function_tool(
        "read"@,
        "Read the contents of a file. Returns the file content as a string."@,
        seq![string_property("path"@, "The path to the file to read"@)],
        seq!["path"@],
    )
}

/// The entry of the `write` tool.
pub open spec fn write_tool() -> ToolDefinitionView {
    function_tool(
        "write"@,
        "Write content to a file. Creates the file if it doesn't exist, overwrites if it does."@,
        seq![
            string_property("path"@, "The path to the file to write"@),
            string_property("content"@, "The content to write to the file"@),
        ],
        seq!["path"@, "content"@],
    )
}

/// The entry of the `list` tool.
pub open spec fn list_tool() -> ToolDefinitionView {
    function_tool(
        "list"@,
        "List files in the current directory. Optionally filter by pattern."@,
        seq![
            string_property(
                "pattern"@,
                "Optional glob pattern to filter files (e.g., '*.rs')"@,
            ),
        ],
        Seq::<Seq<char>>::empty(),
    )
}

/// The whole catalog, in the order in which it is advertised.
pub open spec fn catalog() -> Seq<ToolDefinitionView> {
    seq![bash_tool(), read_tool(), write_tool(), list_tool()]
}

/// The contents of a list of catalog entries, in order.
pub open spec fn tool_definition_views(tools: Seq<ToolDefinition>) -> Seq<ToolDefinitionView> {
    Seq::new(tools.len(), |i: int| tools[i]@)
}

fn property(name: &str, description: &str) -> (r: ParameterProperty)
    ensures
        r@ == string_property(name@, description@),
{
    ParameterProperty {
        name: String::from_str(name),
        value_type: String::from_str("string"),
        description: String::from_str(description),
    }
}

fn definition(
    name: &str,
    description: &str,
    properties: Vec<ParameterProperty>,
    required: Vec<String>,
) -> (r: ToolDefinition)
    ensures
        r@ == function_tool(
            name@,
            description@,
            Seq::new(properties.len() as nat, |i: int| properties[i]@),
            Seq::new(required.len() as nat, |i: int| required[i]@),
        ),
{
    ToolDefinition {
        tool_type: String::from_str("function"),
        function: FunctionDefinition {
            name: String::from_str(name),
            description: String::from_str(description),
            parameters: ParameterSchema {
                schema_type: String::from_str("object"),
                properties,
                required,
            },
        },
    }
}

/// The catalog of the built-in tools: `bash`, `read`, `write` and `list`, in this order.
pub fn get_tool_definitions() -> (r: Vec<ToolDefinition>)
    ensures
        tool_definition_views(r@) == catalog(),
{
    let mut bash_properties: Vec<ParameterProperty> = Vec::new();
    bash_properties.push(property("command", "The bash command to execute"));
    let mut bash_required: Vec<String> = Vec::new();
    bash_required.push(String::from_str("command"));
    let bash = definition(
        "bash",
        "Execute a bash command and return the output. Use this for running shell commands, git operations, package management, etc.",
        bash_properties,
        bash_required,
    );
    assert(bash@.properties =~= bash_tool().properties);
    assert(bash@.required =~= bash_tool().required);

    let mut read_properties: Vec<ParameterProperty> = Vec::new();
    read_properties.push(property("path", "The path to the file to read"));
    let mut read_required: Vec<String> = Vec::new();
    read_required.push(String::from_str("path"));
    let read = definition(
        "read",
        "Read the contents of a file. Returns the file content as a string.",
        read_properties,
        read_required,
    );
    assert(read@.properties =~= read_tool().properties);
    assert(read@.required =~= read_tool().required);

    let mut write_properties: Vec<ParameterProperty> = Vec::new();
    write_properties.push(property("path", "The path to the file to write"));
    write_properties.push(property("content", "The content to write to the file"));
    let mut write_required: Vec<String> = Vec::new();
    write_required.push(String::from_str("path"));
    write_required.push(String::from_str("content"));
    let write = definition(
        "write",
        "Write content to a file. Creates the file if it doesn't exist, overwrites if it does.",
        write_properties,
        write_required,
    );
    assert(write@.properties =~= write_tool().properties);
    assert(write@.required =~= write_tool().required);

    let mut list_properties: Vec<ParameterProperty> = Vec::new();
    list_properties.push(
        property("pattern", "Optional glob pattern to filter files (e.g., '*.rs')"),
    );
    let list_required: Vec<String> = Vec::new();
    let list = definition(
        "list",
        "List files in the current directory. Optionally filter by pattern.",
        list_properties,
        list_required,
    );
    assert(list@.properties =~= list_tool().properties);
    assert(list@.required =~= list_tool().required);

    let mut r: Vec<ToolDefinition> = Vec::new();
    r.push(bash);
    r.push(read);
    r.push(write);
    r.push(list);
    assert(tool_definition_views(r@) =~= catalog());
    r
}

/// The catalog holds exactly the four built-in tools `bash`, `read`, `write` and `list`; each
/// has a description that is not empty, and the schemas require `command` for `bash`, `path`
/// for `read`, `path` and `content` for `write`, and nothing for `list`.
pub proof fn lemma_catalog_is_the_built_in_tools()
    ensures
        catalog().len() == 4,
        catalog()[0].name == "bash"@,
        catalog()[1].name == "read"@,
        catalog()[2].name == "write"@,
        catalog()[3].name == "list"@,
        forall|i: int| 0 <= i < 4 ==> (#[trigger] catalog()[i]).description.len() > 0,
        catalog()[0].required == seq!["command"@],
        catalog()[1].required == seq!["path"@],
        catalog()[2].required == seq!["path"@, "content"@],
        catalog()[3].required.len() == 0,
        forall|i: int, j: int| 0 <= i < j < 4 ==> catalog()[i].name != catalog()[j].name,
{
    reveal_strlit("bash");
    reveal_strlit("read");
    reveal_strlit("write");
    reveal_strlit("list");
    reveal_strlit(
        "Execute a bash command and return the output. Use this for running shell commands, git operations, package management, etc.",
    );
    reveal_strlit("Read the contents of a file. Returns the file content as a string.");
    reveal_strlit(
        "Write content to a file. Creates the file if it doesn't exist, overwrites if it does.",
    );
    reveal_strlit("List files in the current directory. Optionally filter by pattern.");
    assert("bash"@.len() == 4);
    assert("read"@.len() == 4);
    assert("list"@.len() == 4);
    assert("write"@.len() == 5);
    assert("bash"@[0] == 'b');
    assert("read"@[0] == 'r');
    assert("list"@[0] == 'l');
}

} // verus!
