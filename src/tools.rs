//! Two demonstration tools, each taking one required string field `name`.

use vstd::prelude::*;

use crate::model::{
    ArgValue, Arguments, CallToolError, CallToolResult, FailureKind, InputSchema, PropertySchema,
    ToolDescriptor,
};

verus! {

pub open spec fn hello_text(name: Seq<char>) -> Seq<char> {
    "Hello, "@ + name + "! I'm mcp server"@
}

pub open spec fn goodbye_text(name: Seq<char>) -> Seq<char> {
    "Goodbye, "@ + name + "!"@
}

/// The JSON type of a value, named as an input schema names it.
pub open spec fn kind_name(v: ArgValue) -> Seq<char> {
    match v {
        ArgValue::Null => "null"@,
        ArgValue::Bool(_) => "boolean"@,
        ArgValue::Number => "number"@,
        ArgValue::Str(_) => "string"@,
        ArgValue::Array => "array"@,
        ArgValue::Object => "object"@,
    }
}

/// The string held by the required field `field`, or what is wrong with the payload.
pub open spec fn string_field(args: Arguments, field: Seq<char>) -> Result<Seq<char>, Seq<char>> {
    match args.get_spec(field) {
        None => Err("missing field `"@ + field + "`"@),
        Some(ArgValue::Str(s)) => Ok(s@),
        Some(v) => Err(
            "invalid type for field `"@ + field + "`: expected string, found "@ + kind_name(v),
        ),
    }
}

pub open spec fn invalid_arguments_message(tool: Seq<char>, detail: Seq<char>) -> Seq<char> {
    "Invalid arguments for tool '"@ + tool + "': "@ + detail
}

/// `r` carries exactly what `string_field` gives for `field`, failing as invalid arguments to `tool`.
pub open spec fn field_result(
    r: Result<String, CallToolError>,
    args: Arguments,
    tool: Seq<char>,
    field: Seq<char>,
) -> bool {
    match string_field(args, field) {
        Ok(s) => r matches Ok(v) && v@ == s,
        Err(d) => r matches Err(e) && e.kind == FailureKind::InvalidArguments && e.message@
            == invalid_arguments_message(tool, d),
    }
}

/// `args` holds every field that `schema` requires, and each declared field it
/// holds has the declared JSON type.
pub open spec fn satisfies_schema(schema: InputSchema, args: Arguments) -> bool {
    &&& forall|i: int|
        0 <= i < schema.required@.len() ==> (#[trigger] args.get_spec(schema.required@[i]@)) is Some
    &&& forall|j: int|
        0 <= j < schema.properties@.len() ==> match #[trigger] args.get_spec(
            schema.properties@[j].name@,
        ) {
            Some(v) => kind_name(v) == schema.properties@[j].json_type@,
            None => true,
        }
}

/// A schema of one required string field `name`, described by `desc`.
pub open spec fn is_name_schema(schema: InputSchema, desc: Seq<char>) -> bool {
    &&& schema.properties@.len() == 1
    &&& schema.properties@[0].name@ == "name"@
    &&& schema.properties@[0].json_type@ == "string"@
    &&& schema.properties@[0].description@ == desc
    &&& schema.required@.len() == 1
    &&& schema.required@[0]@ == "name"@
}

fn kind_name_of(v: &ArgValue) -> (r: &'static str)
    ensures
        r@ == kind_name(*v),
{
    match v {
        ArgValue::Null => "null",
        ArgValue::Bool(_) => "boolean",
        ArgValue::Number => "number",
        ArgValue::Str(_) => "string",
        ArgValue::Array => "array",
        ArgValue::Object => "object",
    }
}

fn invalid_arguments(tool: &str, detail: &String) -> (r: CallToolError)
    ensures
        r.kind == FailureKind::InvalidArguments,
        r.message@ == invalid_arguments_message(tool@, detail@),
{
    let mut message = String::from_str("Invalid arguments for tool '");
    message.append(tool);
    message.append("': ");
    message.append(detail.as_str());
    CallToolError { kind: FailureKind::InvalidArguments, message }
}

/// Reads the required string field `field` of `args`, as the tool `tool` asks for it.
pub fn required_string(tool: &str, args: &Arguments, field: &str) -> (r: Result<
    String,
    CallToolError,
>)
    ensures
        field_result(r, *args, tool@, field@),
{
    match args.get(field) {
        Some(ArgValue::Str(s)) => Ok(s.clone()),
        Some(v) => {
            let mut detail = String::from_str("invalid type for field `");
            detail.append(field);
            detail.append("`: expected string, found ");
            detail.append(kind_name_of(v));
            Err(invalid_arguments(tool, &detail))
        },
        None => {
            let mut detail = String::from_str("missing field `");
            detail.append(field);
            detail.append("`");
            Err(invalid_arguments(tool, &detail))
        },
    }
}

/// A schema of one required string field `name`.
fn name_schema(desc: &str) -> (r: InputSchema)
    ensures
        is_name_schema(r, desc@),
{
    let property = PropertySchema {
        name: String::from_str("name"),
        json_type: String::from_str("string"),
        description: String::from_str(desc),
    };
    InputSchema { properties: vec![property], required: vec![String::from_str("name")] }
}

/// Says a personalised "Hello" to a person.
#[derive(Debug)]
pub struct SayHelloTool {
    /// The name of the person to greet.
    pub name: String,
}

impl SayHelloTool {
    pub fn tool_name() -> (r: String)
        ensures
            r@ == "say_hello"@,
    {
        String::from_str("say_hello")
    }

    pub fn tool() -> (r: ToolDescriptor)
        ensures
            r.name@ == "say_hello"@,
            r.description@ == "Accepts a person's name and says a personalized \"Hello\" to that person"@,
            is_name_schema(r.input_schema, "The name of the person to greet with a \"Hello\"."@),
    {
        ToolDescriptor {
            name: Self::tool_name(),
            description: String::from_str(
                "Accepts a person's name and says a personalized \"Hello\" to that person",
            ),
            input_schema: name_schema("The name of the person to greet with a \"Hello\"."),
        }
    }

    /// The parameters of a call, read from its argument payload.
    pub fn from_arguments(args: &Arguments) -> (r: Result<Self, CallToolError>)
        ensures
            field_result(
                match r {
                    Ok(t) => Ok(t.name),
                    Err(e) => Err(e),
                },
                *args,
                "say_hello"@,
                "name"@,
            ),
    {
        match required_string("say_hello", args, "name") {
            Ok(name) => Ok(SayHelloTool { name }),
            Err(e) => Err(e),
        }
    }

    pub fn call_tool(&self) -> (r: Result<CallToolResult, CallToolError>)
        ensures
            r matches Ok(res) && res.texts() == seq![hello_text(self.name@)],
    {
        let mut message = String::from_str("Hello, ");
        message.append(self.name.as_str());
        message.append("! I'm mcp server");
        Ok(CallToolResult::text_content(message))
    }
}

/// Says a personalised "Goodbye" to a person.
#[derive(Debug)]
pub struct SayGoodbyeTool {
    /// The name of the person to say goodbye to.
    pub name: String,
}

impl SayGoodbyeTool {
    pub fn tool_name() -> (r: String)
        ensures
            r@ == "say_goodbye"@,
    {
        String::from_str("say_goodbye")
    }

    pub fn tool() -> (r: ToolDescriptor)
        ensures
            r.name@ == "say_goodbye"@,
            r.description@ == "Accepts a person's name and says a personalized \"Goodbye\" to that person."@,
            is_name_schema(r.input_schema, "The name of the person to say goodbye to."@),
    {
        ToolDescriptor {
            name: Self::tool_name(),
            description: String::from_str(
                "Accepts a person's name and says a personalized \"Goodbye\" to that person.",
            ),
            input_schema: name_schema("The name of the person to say goodbye to."),
        }
    }

    /// The parameters of a call, read from its argument payload.
    pub fn from_arguments(args: &Arguments) -> (r: Result<Self, CallToolError>)
        ensures
            field_result(
                match r {
                    Ok(t) => Ok(t.name),
                    Err(e) => Err(e),
                },
                *args,
                "say_goodbye"@,
                "name"@,
            ),
    {
        match required_string("say_goodbye", args, "name") {
            Ok(name) => Ok(SayGoodbyeTool { name }),
            Err(e) => Err(e),
        }
    }

    pub fn call_tool(&self) -> (r: Result<CallToolResult, CallToolError>)
        ensures
            r matches Ok(res) && res.texts() == seq![goodbye_text(self.name@)],
    {
        let mut message = String::from_str("Goodbye, ");
        message.append(self.name.as_str());
        message.append("!");
        Ok(CallToolResult::text_content(message))
    }
}

/// A registered greeting tool: what the registry hands back for a name.
#[derive(Debug, Clone, Copy, PartialEq, Eq, Structural)]
pub enum GreetingTool {
    SayHello,
    SayGoodbye,
}

impl GreetingTool {
    pub open spec fn name_spec(self) -> Seq<char> {
        match self {
            GreetingTool::SayHello => "say_hello"@,
            GreetingTool::SayGoodbye => "say_goodbye"@,
        }
    }

    /// The text this tool answers with for the person `name`.
    pub open spec fn greeting(self, name: Seq<char>) -> Seq<char> {
        match self {
            GreetingTool::SayHello => hello_text(name),
            GreetingTool::SayGoodbye => goodbye_text(name),
        }
    }

    /// This tool's parameters, read from an argument payload.
    pub fn parse(self, args: &Arguments) -> (r: Result<GreetingTools, CallToolError>)
        ensures
            field_result(
                match r {
                    Ok(t) => Ok(t.name_param()),
                    Err(e) => Err(e),
                },
                *args,
                self.name_spec(),
                "name"@,
            ),
            r matches Ok(t) ==> t.tool() == self,
    {
        match self {
            GreetingTool::SayHello => match SayHelloTool::from_arguments(args) {
                Ok(t) => Ok(GreetingTools::SayHelloTool(t)),
                Err(e) => Err(e),
            },
            GreetingTool::SayGoodbye => match SayGoodbyeTool::from_arguments(args) {
                Ok(t) => Ok(GreetingTools::SayGoodbyeTool(t)),
                Err(e) => Err(e),
            },
        }
    }
}

/// The parameters of one call of a greeting tool.
#[derive(Debug)]
pub enum GreetingTools {
    SayHelloTool(SayHelloTool),
    SayGoodbyeTool(SayGoodbyeTool),
}

impl GreetingTools {
    pub open spec fn tool(&self) -> GreetingTool {
        match self {
            GreetingTools::SayHelloTool(_) => GreetingTool::SayHello,
            GreetingTools::SayGoodbyeTool(_) => GreetingTool::SayGoodbye,
        }
    }

    pub open spec fn name_param(&self) -> String {
        match self {
            GreetingTools::SayHelloTool(t) => t.name,
            GreetingTools::SayGoodbyeTool(t) => t.name,
        }
    }

    /// The name of the tool these parameters are for.
    pub fn tool_name(&self) -> (r: String)
        ensures
            r@ == self.tool().name_spec(),
    {
        match self {
            GreetingTools::SayHelloTool(_) => SayHelloTool::tool_name(),
            GreetingTools::SayGoodbyeTool(_) => SayGoodbyeTool::tool_name(),
        }
    }

    /// The descriptor of every greeting tool, each with its handle, in listing order.
    pub fn tools() -> (r: Vec<(ToolDescriptor, GreetingTool)>)
        ensures
            r@.len() == 2,
            r@[0].1 == GreetingTool::SayHello,
            r@[1].1 == GreetingTool::SayGoodbye,
            forall|i: int| 0 <= i < 2 ==> (#[trigger] r@[i]).0.name@ == r@[i].1.name_spec(),
            r@[0].0.description@
                == "Accepts a person's name and says a personalized \"Hello\" to that person"@,
            is_name_schema(r@[0].0.input_schema, "The name of the person to greet with a \"Hello\"."@),
            r@[1].0.description@
                == "Accepts a person's name and says a personalized \"Goodbye\" to that person."@,
            is_name_schema(r@[1].0.input_schema, "The name of the person to say goodbye to."@),
    {
        vec![
            (SayHelloTool::tool(), GreetingTool::SayHello),
            (SayGoodbyeTool::tool(), GreetingTool::SayGoodbye),
        ]
    }

    /// Runs the tool these parameters are for.
    pub fn call_tool(&self) -> (r: Result<CallToolResult, CallToolError>)
        ensures
            r matches Ok(res) && res.texts() == seq![self.tool().greeting(self.name_param()@)],
    {
        match self {
            GreetingTools::SayHelloTool(t) => t.call_tool(),
            GreetingTools::SayGoodbyeTool(t) => t.call_tool(),
        }
    }
}

} // verus!
