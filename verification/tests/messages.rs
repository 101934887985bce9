use gateway_core::error::DecodeError;
use gateway_core::gateway::{FunctionCall, ToolCall};
use gateway_core::json::Json;
use gateway_core::message::MessageType;
use gateway_core::tags::text_is;
use gateway_core::threads::{
    default_include_history, AudioDetail, AudioFormat, ImageDetail, InnerMessage, Message,
    MessageContentPart, MessageContentPartOptions, MessageContentType, RawMessage,
};
use gateway_core::tool_calls::{normalize_tool_calls, tool_calls_from_parsed};

const CALLS: &str = r#"[{"id":"call_1","type":"function","function":{"name":"lookup","arguments":"{\"q\":\"rust\"}"}}]"#;

fn lookup_call() -> ToolCall {
    ToolCall {
        id: "call_1".to_string(),
        kind: "function".to_string(),
        function: FunctionCall {
            name: "lookup".to_string(),
            arguments: "{\"q\":\"rust\"}".to_string(),
        },
    }
}

fn raw(tool_calls: Option<Json>) -> RawMessage {
    RawMessage {
        model_name: "gpt".to_string(),
        thread_id: Some("t-1".to_string()),
        user_id: "u-1".to_string(),
        content_type: MessageContentType::Text,
        content: Some("hi".to_string()),
        content_array: vec![],
        role: MessageType::AIMessage,
        tool_call_id: None,
        tool_calls,
    }
}

fn message(content: Option<&str>, content_array: Vec<MessageContentPart>) -> Message {
    Message {
        model_name: "gpt".to_string(),
        thread_id: None,
        user_id: "u-1".to_string(),
        content_type: MessageContentType::Text,
        content: content.map(|c| c.to_string()),
        content_array,
        role: MessageType::HumanMessage,
        tool_call_id: None,
        tool_calls: None,
    }
}

#[test]
fn json_text_is_read_by_serde_json() {
    let parsed = Json::parse(r#"{"b":[1,-2,2.5,true,null,"x"],"a":{"k":"v"}}"#).unwrap();
    assert_eq!(
        parsed.get("b"),
        Some(&Json::Array(vec![
            Json::Number("1".to_string()),
            Json::Number("-2".to_string()),
            Json::Number("2.5".to_string()),
            Json::Bool(true),
            Json::Null,
            Json::Text("x".to_string()),
        ]))
    );
    assert_eq!(
        parsed.get("a"),
        Some(&Json::Object(vec![("k".to_string(), Json::Text("v".to_string()))]))
    );
    assert_eq!(parsed.get("c"), None);
    assert_eq!(Json::parse("null"), Some(Json::Null));
    assert_eq!(Json::parse("\"text\""), Some(Json::Text("text".to_string())));
}

#[test]
fn text_that_is_not_json_is_refused() {
    assert_eq!(Json::parse("{"), None);
    assert_eq!(Json::parse(""), None);
    assert_eq!(Json::parse("[1,]"), None);
    assert_eq!(Json::parse("hello"), None);
}

#[test]
fn json_values_are_copied_whole() {
    let value: serde_json::Value = serde_json::from_str(r#"[{"n":10},"s"]"#).unwrap();
    let copy = Json::from_value(&value);
    assert_eq!(
        copy,
        Json::Array(vec![
            Json::Object(vec![("n".to_string(), Json::Number("10".to_string()))]),
            Json::Text("s".to_string()),
        ])
    );
    assert_eq!(copy.clone(), copy);
}

#[test]
fn members_are_found_by_key() {
    let object = Json::Object(vec![
        ("a".to_string(), Json::Bool(false)),
        ("b".to_string(), Json::Null),
        ("a".to_string(), Json::Bool(true)),
    ]);
    assert_eq!(object.get("a"), Some(&Json::Bool(false)));
    assert_eq!(object.get("b"), Some(&Json::Null));
    assert_eq!(object.get("z"), None);
    assert_eq!(Json::Array(vec![]).get("a"), None);
    assert!(text_is(&"type".to_string(), "type"));
    assert!(!text_is(&"type".to_string(), "typ"));
}

#[test]
fn tool_calls_as_text_and_as_array_agree() {
    let from_text = normalize_tool_calls(Some(Json::Text(CALLS.to_string())));
    let from_array = normalize_tool_calls(Json::parse(CALLS));
    assert_eq!(from_text, Ok(Some(vec![lookup_call()])));
    assert_eq!(from_text, from_array);
}

#[test]
fn tool_calls_that_are_no_json_fail_the_message() {
    assert_eq!(
        normalize_tool_calls(Some(Json::Text("[{".to_string()))),
        Err(DecodeError::InvalidJson)
    );
    assert_eq!(tool_calls_from_parsed(None), Err(DecodeError::InvalidJson));
    assert_eq!(
        Message::from_raw(raw(Some(Json::Text("not json".to_string())))),
        Err(DecodeError::InvalidJson)
    );
}

#[test]
fn tool_calls_of_another_shape_are_dropped() {
    assert_eq!(normalize_tool_calls(None), Ok(None));
    assert_eq!(normalize_tool_calls(Some(Json::Null)), Ok(None));
    assert_eq!(normalize_tool_calls(Some(Json::Bool(true))), Ok(None));
    assert_eq!(normalize_tool_calls(Some(Json::Object(vec![]))), Ok(None));
    assert_eq!(normalize_tool_calls(Some(Json::Text("null".to_string()))), Ok(None));
    assert_eq!(normalize_tool_calls(Some(Json::Text("{\"id\":1}".to_string()))), Ok(None));
    assert_eq!(
        normalize_tool_calls(Some(Json::Array(vec![Json::Text("x".to_string())]))),
        Ok(None)
    );
    assert_eq!(
        normalize_tool_calls(Json::parse(r#"[{"id":"c","type":"function","function":{"name":"f"}}]"#)),
        Ok(None)
    );
    assert_eq!(normalize_tool_calls(Some(Json::Array(vec![]))), Ok(Some(vec![])));
    assert_eq!(tool_calls_from_parsed(Json::parse(CALLS)), Ok(Some(vec![lookup_call()])));
    assert_eq!(ToolCall::decode(&Json::Null), None);
}

#[test]
fn a_raw_message_keeps_its_fields() {
    let done = Message::from_raw(raw(Some(Json::Text(CALLS.to_string())))).unwrap();
    assert_eq!(done.model_name, "gpt");
    assert_eq!(done.thread_id, Some("t-1".to_string()));
    assert_eq!(done.user_id, "u-1");
    assert_eq!(done.content_type, MessageContentType::Text);
    assert_eq!(done.content, Some("hi".to_string()));
    assert_eq!(done.content_array, vec![]);
    assert_eq!(done.role, MessageType::AIMessage);
    assert_eq!(done.tool_call_id, None);
    assert_eq!(done.tool_calls, Some(vec![lookup_call()]));

    let plain = Message::from_raw(raw(None)).unwrap();
    assert_eq!(plain.tool_calls, None);
}

#[test]
fn parts_win_over_text() {
    let parts = vec![MessageContentPart {
        kind: MessageContentType::Text,
        value: "part".to_string(),
        additional_options: None,
        cache_control: None,
    }];
    assert_eq!(
        InnerMessage::from(message(Some("text"), parts.clone())),
        InnerMessage::Array(parts.clone())
    );
    assert_eq!(InnerMessage::from(message(None, parts.clone())), InnerMessage::Array(parts));
}

#[test]
fn text_stands_where_there_are_no_parts() {
    assert_eq!(
        InnerMessage::from(message(Some("text"), vec![])),
        InnerMessage::Text("text".to_string())
    );
    assert_eq!(InnerMessage::from(message(None, vec![])), InnerMessage::Text(String::new()));
    let inner: InnerMessage = message(Some("into"), vec![]).into();
    assert_eq!(inner, InnerMessage::Text("into".to_string()));
}

#[test]
fn image_options_are_picked_out() {
    assert_eq!(
        MessageContentPartOptions::Image(ImageDetail::Auto).as_image(),
        Some(ImageDetail::Auto)
    );
    assert_eq!(
        MessageContentPartOptions::Image(ImageDetail::High).as_image(),
        Some(ImageDetail::High)
    );
    assert_eq!(
        MessageContentPartOptions::Audio(AudioDetail { format: AudioFormat::Wav }).as_image(),
        None
    );
}

#[test]
fn a_part_is_text_by_default() {
    assert_eq!(MessageContentType::default(), MessageContentType::Text);
}

#[test]
fn history_is_taken_along_by_default() {
    assert!(default_include_history());
}

#[test]
fn a_request_is_copied_whole() {
    let mut parameters = indexmap::IndexMap::new();
    parameters.insert("temperature".to_string(), Json::Number("0.5".to_string()));
    parameters.insert("stream".to_string(), Json::Bool(true));
    let request = gateway_core::threads::MessageRequest {
        model_name: "gpt".to_string(),
        thread_id: Some("t-1".to_string()),
        user_id: "u-1".to_string(),
        parameters,
        message: InnerMessage::Array(vec![MessageContentPart {
            kind: MessageContentType::ImageUrl,
            value: "image/base64".to_string(),
            additional_options: Some(MessageContentPartOptions::Image(ImageDetail::Low)),
            cache_control: None,
        }]),
        include_history: default_include_history(),
        history_length: Some(3),
    };
    let copy = request.clone();
    assert_eq!(copy, request);
    assert_eq!(copy.parameters.get_index(0).map(|(k, _)| k.as_str()), Some("temperature"));
}
