use gemini_rs::client::Request;
use gemini_rs::types::{
    ApiError, ApiResponse, Candidate, Content, ErrorDetail, GenerationConfig, Part, Response, Role,
    Schema, Status, Type,
};
use gemini_rs::{Client, GeminiError};

#[test]
fn new_chat_is_empty() {
    let client = Client::new("k");
    let chat = client.chat("gemini-2.0-flash");
    assert!(chat.history().is_empty());
    let route = chat.generate_content();
    let kind = route.kind();
    assert_eq!(kind.model, "gemini-2.0-flash");
    assert!(kind.body.contents.is_empty());
    assert!(kind.body.system_instruction.is_none());
    assert!(kind.body.generation_config.is_none());
}

#[test]
fn send_message_replays_history() {
    let client = Client::new("k");
    let mut chat = client.chat("m").system_instruction("answer in French");
    let first = chat.send_message("hello");
    assert_eq!(first.kind().body.contents.len(), 1);
    chat.history_mut().push(Content { role: Role::Model, parts: vec![Part::text("bonjour")] });
    let second = chat.send_message("how are you");
    assert_eq!(chat.history().len(), 3);
    let body = second.into_body().unwrap();
    assert_eq!(body.contents.len(), 3);
    assert_eq!(body.contents[0].parts[0].text.as_deref(), Some("hello"));
    assert_eq!(body.contents[1].role, Role::Model);
    assert_eq!(body.contents[1].parts[0].text.as_deref(), Some("bonjour"));
    assert_eq!(body.contents[2].role, Role::User);
    assert_eq!(body.contents[2].parts[0].text.as_deref(), Some("how are you"));
    let instruction = body.system_instruction.unwrap();
    assert_eq!(instruction.parts[0].text.as_deref(), Some("answer in French"));
}

#[test]
fn chat_config_defaults() {
    let client = Client::new("k");
    let mut chat = client.chat("m");
    assert!(chat.config().top_k.is_none());
    chat.config_mut().max_output_tokens = Some(100);
    assert_eq!(chat.config().max_output_tokens, Some(100));
    let body = chat.generate_content().into_body().unwrap();
    let config: GenerationConfig = body.generation_config.unwrap();
    assert_eq!(config.max_output_tokens, Some(100));
}

#[test]
fn json_chat_sets_mime_type_and_schema() {
    let client = Client::new("k");
    let schema = Schema { schema_type: Some(Type::Array), ..Default::default() };
    let mut chat = client.chat("m").to_json().response_schema(schema);
    let config = chat.config();
    assert_eq!(config.response_mime_type.as_deref(), Some("application/json"));
    assert_eq!(config.response_schema.as_ref().unwrap().schema_type, Some(Type::Array));
    let body = chat.generate_content().into_body().unwrap();
    let sent = body.generation_config.unwrap();
    assert_eq!(sent.response_mime_type.as_deref(), Some("application/json"));
    assert_eq!(sent.response_schema.unwrap().schema_type, Some(Type::Array));
}

#[test]
fn chat_request_uri() {
    let client = Client::new("key1");
    let chat = client.chat("gemini-1.5-flash");
    assert_eq!(
        chat.generate_content().uri(),
        "https://generativelanguage.googleapis.com/v1beta/models/gemini-1.5-flash:generateContent?key=key1"
    );
}

fn response_with(text: Option<&str>) -> Response {
    Response {
        candidates: vec![Candidate {
            content: Content {
                role: Role::Model,
                parts: vec![Part { text: text.map(|t| t.to_string()), ..Default::default() }],
            },
            finish_reason: None,
            index: Some(0),
            safety_ratings: vec![],
        }],
        prompt_feedback: None,
        usage_metadata: None,
    }
}

#[test]
fn response_text() {
    assert_eq!(response_with(Some("AI is")).to_string(), "AI is");
    assert_eq!(response_with(None).to_string(), "");
}

#[test]
fn api_response_into_result() {
    let ok: ApiResponse<u32> = ApiResponse::Success(7);
    assert_eq!(ok.into_result().unwrap(), 7);
    let err: ApiResponse<u32> = ApiResponse::Failure(ApiError {
        error: ErrorDetail {
            code: 404,
            message: "no such model".to_string(),
            status: Status::NotFound,
            details: vec![],
        },
    });
    match err.into_result() {
        Err(GeminiError::Gemini(detail)) => {
            assert_eq!(detail.code, 404);
            assert_eq!(detail.status, Status::NotFound);
            assert_eq!(detail.message, "no such model");
        }
        other => panic!("unexpected {other:?}"),
    }
}
