use gemini_rs::conversation::{Conversation, Part};
use gemini_rs::files::{file_list_uri, upload_metadata, upload_start_uri, GeminiFile};
use gemini_rs::response::{FinishReason, GeminiResponse};

#[test]
fn mime_types() {
    assert_eq!(Conversation::get_mime_filetype("png"), "image/png");
    assert_eq!(Conversation::get_mime_filetype("jpeg"), "image/jpeg");
    assert_eq!(Conversation::get_mime_filetype("webp"), "image/webp");
    assert_eq!(Conversation::get_mime_filetype("gif"), "a");
    assert_eq!(Conversation::get_mime_filetype(""), "a");
}

#[test]
fn extensions() {
    assert_eq!(Conversation::file_extension("dir/cat.tar.png").as_deref(), Some("png"));
    assert_eq!(Conversation::file_extension("cat.").as_deref(), Some(""));
    assert_eq!(Conversation::file_extension("a/b/cat"), None);
}

#[test]
fn display_names() {
    assert_eq!(Conversation::display_name("Testing/cat.png").as_deref(), Some("cat"));
    assert_eq!(Conversation::display_name("a.b/c/archive.tar.gz").as_deref(), Some("archive"));
    assert_eq!(Conversation::display_name("plain.txt").as_deref(), Some("plain"));
    assert_eq!(Conversation::display_name("a.dir/noext"), None);
}

#[test]
fn upload_texts() {
    assert_eq!(
        upload_start_uri("K"),
        "https://generativelanguage.googleapis.com/upload/v1beta/files?key=K"
    );
    assert_eq!(file_list_uri("K"), "https://generativelanguage.googleapis.com/v1beta/files/?key=K");
    assert_eq!(upload_metadata("cat"), r#"{"file": {"display_name": "cat"}}"#);
}

#[test]
fn empty_file() {
    let f = GeminiFile::none();
    assert!(f.file_uri.is_empty() && f.mime_type.is_empty());
}

#[test]
fn new_conversation() {
    let c = Conversation::new("t".to_string(), "gemini-1.5-flash".to_string());
    assert_eq!(c.model, "gemini-1.5-flash");
    assert!(c.history.is_empty());
}

#[test]
fn finish_reasons() {
    assert_eq!(FinishReason::get_fake("STOP"), FinishReason::Stop);
    assert_eq!(FinishReason::get_fake("MAX_TOKENS"), FinishReason::MaxTokens);
    assert_eq!(FinishReason::get_fake("SPII"), FinishReason::Spii);
    assert_eq!(FinishReason::get_fake("MALFORMED_FUNCTION_CALL"), FinishReason::BadCall);
    assert_eq!(FinishReason::get_fake("PROHIBITED_CONTENT"), FinishReason::Unspecified);
    assert_eq!(FinishReason::get_fake("stop"), FinishReason::Unspecified);
}

#[test]
fn response_first_text() {
    let r = GeminiResponse {
        content: vec![Part::Text("hi".to_string()), Part::Text("more".to_string())],
        safety_rating: vec![],
        token_count: 3,
        finish_reason: FinishReason::Stop,
    };
    assert_eq!(r.get_text(), "hi");
    let f = GeminiResponse {
        content: vec![Part::File(GeminiFile::none())],
        safety_rating: vec![],
        token_count: 0,
        finish_reason: FinishReason::Other,
    };
    assert_eq!(f.get_text(), "");
}
