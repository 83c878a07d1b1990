use rust_sse::handler::MyServerHandler;
use rust_sse::model::{
    ArgValue, Arguments, CallToolError, CallToolRequest, CallToolResult, ContentBlock, FailureKind,
};
use rust_sse::tools::{GreetingTool, GreetingTools, SayGoodbyeTool, SayHelloTool};

fn request(tool: &str, name: Option<ArgValue>) -> CallToolRequest {
    let mut arguments = Arguments::new();
    if let Some(v) = name {
        arguments.insert("name".to_string(), v);
    }
    CallToolRequest { tool_name: tool.to_string(), arguments }
}

fn texts(r: &CallToolResult) -> Vec<String> {
    r.content.iter().map(|b| match b {
        ContentBlock::Text(t) => t.clone(),
    }).collect()
}

fn failure(r: Result<CallToolResult, CallToolError>) -> CallToolError {
    match r {
        Ok(res) => panic!("expected a failure, got {:?}", res),
        Err(e) => e,
    }
}

#[test]
fn say_hello_greets_ada() {
    let h = MyServerHandler::new();
    let r = h
        .handle_call_tool_request(&request("say_hello", Some(ArgValue::Str("Ada".to_string()))))
        .unwrap();
    assert_eq!(texts(&r), vec!["Hello, Ada! I'm mcp server"]);
}

#[test]
fn say_goodbye_bids_ada_farewell() {
    let h = MyServerHandler::new();
    let r = h
        .handle_call_tool_request(&request("say_goodbye", Some(ArgValue::Str("Ada".to_string()))))
        .unwrap();
    assert_eq!(texts(&r), vec!["Goodbye, Ada!"]);
}

#[test]
fn missing_name_is_invalid_arguments() {
    let h = MyServerHandler::new();
    let e = failure(h.handle_call_tool_request(&request("say_hello", None)));
    assert_eq!(e.kind, FailureKind::InvalidArguments);
    assert_eq!(e.message, "Invalid arguments for tool 'say_hello': missing field `name`");
}

#[test]
fn wrongly_typed_name_is_invalid_arguments() {
    let h = MyServerHandler::new();
    let e = failure(h.handle_call_tool_request(&request("say_goodbye", Some(ArgValue::Number))));
    assert_eq!(e.kind, FailureKind::InvalidArguments);
    assert_eq!(
        e.message,
        "Invalid arguments for tool 'say_goodbye': invalid type for field `name`: expected string, found number"
    );
    let e = failure(h.handle_call_tool_request(&request("say_hello", Some(ArgValue::Bool(true)))));
    assert_eq!(
        e.message,
        "Invalid arguments for tool 'say_hello': invalid type for field `name`: expected string, found boolean"
    );
    let e = failure(h.handle_call_tool_request(&request("say_hello", Some(ArgValue::Null))));
    assert_eq!(e.kind, FailureKind::InvalidArguments);
    assert!(e.message.ends_with("field `name`: expected string, found null"));
    let e = failure(h.handle_call_tool_request(&request("say_hello", Some(ArgValue::Array))));
    assert!(e.message.ends_with("field `name`: expected string, found array"));
    let e = failure(h.handle_call_tool_request(&request("say_goodbye", Some(ArgValue::Object))));
    assert!(e.message.ends_with("field `name`: expected string, found object"));
}

#[test]
fn listed_schema_matches_accepted_payloads() {
    let h = MyServerHandler::new();
    for d in h.handle_list_tools_request() {
        assert_eq!(d.input_schema.required, vec!["name"]);
        assert_eq!(d.input_schema.properties.len(), 1);
        assert_eq!(d.input_schema.properties[0].name, "name");
        assert_eq!(d.input_schema.properties[0].json_type, "string");
        let ok = h.handle_call_tool_request(&request(&d.name, Some(ArgValue::Str("Ada".to_string()))));
        assert!(ok.is_ok());
        let bad = failure(h.handle_call_tool_request(&request(&d.name, Some(ArgValue::Number))));
        assert_eq!(bad.kind, FailureKind::InvalidArguments);
    }
    let list = h.handle_list_tools_request();
    assert_eq!(
        list[1].description,
        "Accepts a person's name and says a personalized \"Goodbye\" to that person."
    );
    assert_eq!(list[0].input_schema.properties[0].description, "The name of the person to greet with a \"Hello\".");
    assert_eq!(list[1].input_schema.properties[0].description, "The name of the person to say goodbye to.");
}

#[test]
fn unknown_tool_is_reported() {
    let h = MyServerHandler::new();
    let e = failure(h.handle_call_tool_request(&request("nope", None)));
    assert_eq!(e.kind, FailureKind::UnknownTool);
    assert_eq!(e.message, "Unknown tool: nope");
    let e = failure(h.handle_call_tool_request(&request("", None)));
    assert_eq!(e.kind, FailureKind::UnknownTool);
}

#[test]
fn extra_fields_are_ignored() {
    let h = MyServerHandler::new();
    let mut req = request("say_hello", Some(ArgValue::Str("Grace".to_string())));
    req.arguments.insert("mood".to_string(), ArgValue::Object);
    let r = h.handle_call_tool_request(&req).unwrap();
    assert_eq!(texts(&r), vec!["Hello, Grace! I'm mcp server"]);
}

#[test]
fn empty_name_is_accepted() {
    let h = MyServerHandler::new();
    let r = h
        .handle_call_tool_request(&request("say_goodbye", Some(ArgValue::Str(String::new()))))
        .unwrap();
    assert_eq!(texts(&r), vec!["Goodbye, !"]);
}

#[test]
fn interleaved_calls_do_not_interfere() {
    let h = MyServerHandler::new();
    let a = request("say_hello", Some(ArgValue::Str("Ada".to_string())));
    let b = request("say_goodbye", Some(ArgValue::Str("Bob".to_string())));
    let ra1 = h.handle_call_tool_request(&a).unwrap();
    let rb1 = h.handle_call_tool_request(&b).unwrap();
    let rb2 = h.handle_call_tool_request(&b).unwrap();
    let ra2 = h.handle_call_tool_request(&a).unwrap();
    assert_eq!(texts(&ra1), vec!["Hello, Ada! I'm mcp server"]);
    assert_eq!(texts(&ra2), texts(&ra1));
    assert_eq!(texts(&rb1), vec!["Goodbye, Bob!"]);
    assert_eq!(texts(&rb2), texts(&rb1));
}

#[test]
fn list_gives_both_tools_in_order() {
    let h = MyServerHandler::new();
    let list = h.handle_list_tools_request();
    assert_eq!(list.len(), 2);
    assert_eq!(list[0].name, "say_hello");
    assert_eq!(
        list[0].description,
        "Accepts a person's name and says a personalized \"Hello\" to that person"
    );
    assert_eq!(list[1].name, "say_goodbye");
    assert_eq!(list[1].input_schema.required, vec!["name"]);
    assert_eq!(list[1].input_schema.properties[0].json_type, "string");
    let again = h.handle_list_tools_request();
    assert_eq!(again[0].name, "say_hello");
}

#[test]
fn arguments_insert_replaces_earlier_value() {
    let mut args = Arguments::new();
    args.insert("name".to_string(), ArgValue::Str("Ada".to_string()));
    args.insert("name".to_string(), ArgValue::Str("Bob".to_string()));
    match args.get("name") {
        Some(ArgValue::Str(s)) => assert_eq!(s, "Bob"),
        other => panic!("unexpected {:?}", other),
    }
    assert!(args.get("other").is_none());
}

#[test]
fn tools_parse_and_run_directly() {
    let mut args = Arguments::new();
    args.insert("name".to_string(), ArgValue::Str("Lin".to_string()));
    let hello = SayHelloTool::from_arguments(&args).unwrap();
    assert_eq!(hello.name, "Lin");
    assert_eq!(texts(&hello.call_tool().unwrap()), vec!["Hello, Lin! I'm mcp server"]);
    let bye = SayGoodbyeTool::from_arguments(&args).unwrap();
    assert_eq!(texts(&bye.call_tool().unwrap()), vec!["Goodbye, Lin!"]);
    let parsed = GreetingTool::SayGoodbye.parse(&args).unwrap();
    assert_eq!(parsed.tool_name(), "say_goodbye");
    assert!(matches!(parsed, GreetingTools::SayGoodbyeTool(_)));
    assert_eq!(SayHelloTool::tool_name(), "say_hello");
    assert_eq!(SayGoodbyeTool::tool().name, "say_goodbye");
}
