//! The dispatcher: answers the protocol's list and call requests from the tool registry.

use vstd::prelude::*;

use crate::model::{ArgValue, Arguments, CallToolError, CallToolRequest, CallToolResult, FailureKind, ToolDescriptor};
use crate::registry::{entry_descriptors, entry_tools, names_of, ToolRegistry};
use crate::tools::{
    invalid_arguments_message, is_name_schema, kind_name, satisfies_schema, string_field,
    GreetingTool, GreetingTools,
};

verus! {

/// What a call comes to, in plain values: the texts of its content blocks, or
/// the class and message of its failure.
pub enum CallOutcome {
    Success(Seq<Seq<char>>),
    Failure(FailureKind, Seq<char>),
}

pub open spec fn outcome_of(r: Result<CallToolResult, CallToolError>) -> CallOutcome {
    match r {
        Ok(res) => CallOutcome::Success(res.texts()),
        Err(e) => CallOutcome::Failure(e.kind, e.message@),
    }
}

pub open spec fn unknown_tool_message(name: Seq<char>) -> Seq<char> {
    "Unknown tool: "@ + name
}

/// What calling the tool `tool_name` with `args` comes to, against the tools of `registry`.
pub open spec fn call_spec(
    registry: ToolRegistry<GreetingTool>,
    tool_name: Seq<char>,
    args: Arguments,
) -> CallOutcome {
    match registry.lookup(tool_name) {
        None => CallOutcome::Failure(FailureKind::UnknownTool, unknown_tool_message(tool_name)),
        Some(tool) => match string_field(args, "name"@) {
            Ok(name) => CallOutcome::Success(seq![tool.greeting(name)]),
            Err(detail) => CallOutcome::Failure(
                FailureKind::InvalidArguments,
                invalid_arguments_message(tool_name, detail),
            ),
        },
    }
}

/// Every tool is registered under its own name.
pub open spec fn registered_by_name(registry: ToolRegistry<GreetingTool>) -> bool {
    forall|i: int|
        0 <= i < registry.names().len() ==> #[trigger] registry.names()[i]
            == registry.tools()[i].name_spec()
}

/// Handles the list and call requests of one server, over the greeting tools.
pub struct MyServerHandler {
    registry: ToolRegistry<GreetingTool>,
}

impl MyServerHandler {
    pub closed spec fn registry(&self) -> ToolRegistry<GreetingTool> {
        self.registry
    }

    pub open spec fn wf(&self) -> bool {
        &&& self.registry().wf()
        &&& registered_by_name(self.registry())
    }

    /// The tools served are `say_hello` and `say_goodbye`, listed in that order,
    /// each described as it describes itself and taking one required string field `name`.
    pub open spec fn serves_greeting_tools(&self) -> bool {
        let d = self.registry().descriptors();
        &&& self.registry().names() == seq!["say_hello"@, "say_goodbye"@]
        &&& self.registry().tools() == seq![GreetingTool::SayHello, GreetingTool::SayGoodbye]
        &&& d[0].description@
            == "Accepts a person's name and says a personalized \"Hello\" to that person"@
        &&& is_name_schema(d[0].input_schema, "The name of the person to greet with a \"Hello\"."@)
        &&& d[1].description@
            == "Accepts a person's name and says a personalized \"Goodbye\" to that person."@
        &&& is_name_schema(d[1].input_schema, "The name of the person to say goodbye to."@)
    }

    /// A handler serving `say_hello` and `say_goodbye`, listed in that order.
    pub fn new() -> (r: Self)
        ensures
            r.wf(),
            r.serves_greeting_tools(),
    {
        let entries = GreetingTools::tools();
        let ghost listed = entries@;
        proof {
            reveal_strlit("say_hello");
            reveal_strlit("say_goodbye");
            let names = names_of(entry_descriptors(listed));
            assert(names[0] == "say_hello"@);
            assert(names[1] == "say_goodbye"@);
            assert(names[0].len() != names[1].len());
            assert(names =~= seq!["say_hello"@, "say_goodbye"@]);
            assert(entry_tools(listed) =~= seq![GreetingTool::SayHello, GreetingTool::SayGoodbye]);
        }
        match ToolRegistry::with_tools(entries) {
            Ok(registry) => MyServerHandler { registry },
            Err(_) => {
                proof {
                    assert(false);
                }
                MyServerHandler { registry: ToolRegistry::new() }
            },
        }
    }

    /// Answers a list request: every tool's descriptor, in registration order.
    pub fn handle_list_tools_request(&self) -> (r: &Vec<ToolDescriptor>)
        ensures
            r@ == self.registry().descriptors(),
    {
        self.registry.list()
    }

    /// Answers a call request. An unknown tool name and a payload that does not
    /// fit the tool's parameters come back as failures, never as a fault.
    pub fn handle_call_tool_request(&self, request: &CallToolRequest) -> (r: Result<
        CallToolResult,
        CallToolError,
    >)
        requires
            self.wf(),
        ensures
            outcome_of(r) == call_spec(self.registry(), request.tool_name@, request.arguments),
    {
        match self.registry.resolve(request.tool_name.as_str()) {
            Err(_) => {
                let mut message = String::from_str("Unknown tool: ");
                message.append(request.tool_name.as_str());
                Err(CallToolError { kind: FailureKind::UnknownTool, message })
            },
            Ok(tool) => {
                proof {
                    lemma_lookup_by_name(self.registry(), request.tool_name@);
                }
                match tool.parse(&request.arguments) {
                    Err(e) => Err(e),
                    Ok(params) => params.call_tool(),
                }
            },
        }
    }
}

/// Two calls of different tools, each with a valid payload, each come to the
/// greeting of their own tool for their own person: the outcome of a call
/// depends on its own request and the registry alone, which no call changes.
pub proof fn lemma_calls_independent(handler: MyServerHandler, a: CallToolRequest, b: CallToolRequest)
    requires
        handler.wf(),
        a.tool_name@ != b.tool_name@,
        handler.registry().names().contains(a.tool_name@),
        handler.registry().names().contains(b.tool_name@),
        string_field(a.arguments, "name"@) is Ok,
        string_field(b.arguments, "name"@) is Ok,
    ensures
        ({
            let ta = handler.registry().lookup(a.tool_name@).unwrap();
            let tb = handler.registry().lookup(b.tool_name@).unwrap();
            &&& ta.name_spec() == a.tool_name@
            &&& tb.name_spec() == b.tool_name@
            &&& ta != tb
            &&& call_spec(handler.registry(), a.tool_name@, a.arguments) == CallOutcome::Success(
                seq![ta.greeting(string_field(a.arguments, "name"@)->Ok_0)],
            )
            &&& call_spec(handler.registry(), b.tool_name@, b.arguments) == CallOutcome::Success(
                seq![tb.greeting(string_field(b.arguments, "name"@)->Ok_0)],
            )
        }),
{
    lemma_lookup_by_name(handler.registry(), a.tool_name@);
    lemma_lookup_by_name(handler.registry(), b.tool_name@);
}

/// The schema listed for each served tool describes exactly the payloads that
/// a call of that tool accepts: a call fails with invalid arguments if and only
/// if its payload does not satisfy the schema.
pub proof fn lemma_schema_describes_accepted_arguments(
    handler: MyServerHandler,
    i: int,
    args: Arguments,
)
    requires
        handler.wf(),
        handler.serves_greeting_tools(),
        0 <= i < handler.registry().descriptors().len(),
    ensures
        satisfies_schema(handler.registry().descriptors()[i].input_schema, args) <==> !(call_spec(
            handler.registry(),
            handler.registry().names()[i],
            args,
        ) is Failure && call_spec(handler.registry(), handler.registry().names()[i], args)->Failure_0
            == FailureKind::InvalidArguments),
{
    let registry = handler.registry();
    let schema = registry.descriptors()[i].input_schema;
    crate::registry::lemma_index_of_unique(registry.names(), i);
    assert(registry.names()[i] == registry.descriptors()[i].name@);
    reveal_strlit("string");
    reveal_strlit("null");
    reveal_strlit("boolean");
    reveal_strlit("number");
    reveal_strlit("array");
    reveal_strlit("object");
    let field = args.get_spec("name"@);
    assert(registry.names().len() == 2);
    assert(registry.lookup(registry.names()[i]) == Some(registry.tools()[i]));
    assert(exists|desc: Seq<char>| is_name_schema(schema, desc)) by {
        if i == 0 {
            assert(is_name_schema(schema, "The name of the person to greet with a \"Hello\"."@));
        } else {
            assert(is_name_schema(schema, "The name of the person to say goodbye to."@));
        }
    }
    assert(schema.properties@[0].name@ == "name"@);
    assert(schema.required@[0]@ == "name"@);
    assert(schema.properties@[0].json_type@ == "string"@);
    assert(string_field(args, "name"@) is Ok <==> field matches Some(ArgValue::Str(_)));
    if satisfies_schema(schema, args) {
        assert(args.get_spec(schema.required@[0]@) is Some);
        assert(args.get_spec(schema.properties@[0].name@) == field);
        let v = field->Some_0;
        assert(kind_name(v) == "string"@);
        assert("null"@.len() != "string"@.len());
        assert("boolean"@.len() != "string"@.len());
        assert("array"@.len() != "string"@.len());
        assert("number"@[0] != "string"@[0]);
        assert("object"@[0] != "string"@[0]);
        assert(field matches Some(ArgValue::Str(_)));
    }
    if field matches Some(ArgValue::Str(_)) {
        assert forall|j: int| 0 <= j < schema.properties@.len() implies match #[trigger] args.get_spec(
            schema.properties@[j].name@,
        ) {
            Some(v) => kind_name(v) == schema.properties@[j].json_type@,
            None => true,
        } by {
            assert(j == 0);
        }
        assert forall|k: int| 0 <= k < schema.required@.len() implies (#[trigger] args.get_spec(
            schema.required@[k]@,
        )) is Some by {
            assert(k == 0);
        }
    }
}

/// A tool found under a name is the tool of that name.
proof fn lemma_lookup_by_name(registry: ToolRegistry<GreetingTool>, name: Seq<char>)
    requires
        registry.wf(),
        registered_by_name(registry),
    ensures
        registry.lookup(name) matches Some(t) ==> t.name_spec() == name,
{
    if registry.names().contains(name) {
        let k = registry.names().index_of(name);
        assert(registry.names()[k] == registry.tools()[k].name_spec());
    }
}

} // verus!
