use gemini_rs::client::{decimal, Formatter, Method, Request};
use gemini_rs::types::{Content, GenerationConfig, Part, Role, Schema, Type};
use gemini_rs::Client;

#[test]
fn formatter_query_params() {
    let mut f = Formatter::new("base");
    f.write_str("/path");
    f.write_optional_query_param("absent", None);
    f.write_query_param("a", "1");
    f.write_optional_query_param("b", Some("two"));
    assert_eq!(f.into_string(), "base/path?a=1&b=two");
}

#[test]
fn decimal_numerals() {
    assert_eq!(decimal(0), "0");
    assert_eq!(decimal(7), "7");
    assert_eq!(decimal(10), "10");
    assert_eq!(decimal(1234567890), "1234567890");
    assert_eq!(decimal(usize::MAX), usize::MAX.to_string());
}

#[test]
fn generate_content_uri() {
    let client = Client::new("SECRET-REDACTED");
    let route = client.generate_content("gemini-1.5-flash");
    assert_eq!(
        route.uri(),
        "https://generativelanguage.googleapis.com/v1beta/models/gemini-1.5-flash:generateContent?key=SECRET-REDACTED"
    );
    assert_eq!(route.method(), Method::Post);
    assert_eq!(route.kind().method(), Method::Post);
}

#[test]
fn models_uri_without_paging() {
    let client = Client::new("k");
    let route = client.models();
    assert_eq!(
        route.uri(),
        "https://generativelanguage.googleapis.com/v1beta/models?key=k"
    );
    assert_eq!(route.method(), Method::Get);
    assert!(route.into_body().is_none());
}

#[test]
fn models_uri_with_paging() {
    let client = Client::new("k");
    let mut route = client.models();
    route.kind_mut().page_size(25);
    route.kind_mut().page_token("next");
    assert_eq!(
        route.uri_with_key("other"),
        "https://generativelanguage.googleapis.com/v1beta/models?page_size=25&page_token=next&key=other"
    );
    let mut only_token = client.models();
    only_token.kind_mut().page_token("t");
    assert_eq!(
        only_token.uri(),
        "https://generativelanguage.googleapis.com/v1beta/models?page_token=t&key=k"
    );
}

#[test]
fn client_key() {
    let client = Client::new("abc");
    assert_eq!(client.key(), "abc");
    assert_eq!(client.clone().key(), "abc");
}

#[test]
fn generate_content_builder() {
    let client = Client::new("k");
    let mut route = client.generate_content("m");
    route.kind_mut().system_instruction("be brief");
    route.kind_mut().message("hello");
    route.kind_mut().message("again");
    let mut config = GenerationConfig::empty();
    config.top_k = Some(3);
    route.kind_mut().config(config);
    let body = route.into_body().unwrap();
    assert_eq!(body.contents.len(), 2);
    assert_eq!(body.contents[0].role, Role::User);
    assert_eq!(body.contents[0].parts[0].text.as_deref(), Some("hello"));
    assert_eq!(body.contents[1].parts[0].text.as_deref(), Some("again"));
    let instruction = body.system_instruction.unwrap();
    assert_eq!(instruction.parts.len(), 1);
    assert_eq!(instruction.parts[0].text.as_deref(), Some("be brief"));
    assert_eq!(body.generation_config.unwrap().top_k, Some(3));
}

#[test]
fn generate_content_replace_contents() {
    let client = Client::new("k");
    let mut route = client.generate_content("m");
    route.kind_mut().message("dropped");
    route.kind_mut().contents(vec![Content { role: Role::Model, parts: vec![Part::text("kept")] }]);
    let body = route.into_body().unwrap();
    assert_eq!(body.contents.len(), 1);
    assert_eq!(body.contents[0].role, Role::Model);
    assert_eq!(body.contents[0].parts[0].text.as_deref(), Some("kept"));
}

#[test]
fn part_text_only() {
    let p = Part::text("hi");
    assert_eq!(p.text.as_deref(), Some("hi"));
    assert!(p.inline_data.is_none() && p.file_data.is_none() && p.video_metadata.is_none());
}

#[test]
fn schema_duplicate_keeps_structure() {
    let person = Schema {
        schema_type: Some(Type::Object),
        properties: Some(vec![
            ("name".to_string(), Schema { schema_type: Some(Type::String), ..Default::default() }),
            ("age".to_string(), Schema { schema_type: Some(Type::Integer), ..Default::default() }),
        ]),
        required: Some(vec!["name".to_string()]),
        ..Default::default()
    };
    let list = Schema { schema_type: Some(Type::Array), items: Some(Box::new(person)), ..Default::default() };
    let copy = list.duplicate();
    assert_eq!(copy.schema_type, Some(Type::Array));
    let item = copy.items.unwrap();
    let props = item.properties.unwrap();
    assert_eq!(props.len(), 2);
    assert_eq!(props[0].0, "name");
    assert_eq!(props[1].1.schema_type, Some(Type::Integer));
    assert_eq!(item.required, Some(vec!["name".to_string()]));
}
