//! Files uploaded to the API and attached to prompts.
use vstd::prelude::*;

verus! {

/// Stores a file used for prompting Gemini
#[derive(Debug, Clone)]
pub struct GeminiFile {
    pub file_uri: String,
    pub mime_type: String,
}

impl GeminiFile {
    /// A file with an empty URI and MIME type.
    pub fn none() -> (r: GeminiFile)
        ensures
            r.file_uri@.len() == 0,
            r.mime_type@.len() == 0,
    {
        GeminiFile { file_uri: String::new(), mime_type: String::new() }
    }
}

/// The endpoint that starts a resumable upload.
pub open spec fn upload_start_uri_of(api_key: Seq<char>) -> Seq<char> {
    "https://generativelanguage.googleapis.com/upload/v1beta/files?key="@ + api_key
}

/// The endpoint that lists the uploaded files.
pub open spec fn file_list_uri_of(api_key: Seq<char>) -> Seq<char> {
    "https://generativelanguage.googleapis.com/v1beta/files/?key="@ + api_key
}

/// The metadata that opens an upload: a JSON object naming the file.
pub open spec fn upload_metadata_of(display_name: Seq<char>) -> Seq<char> {
    "{\"file\": {\"display_name\": \""@ + display_name + "\"}}"@
}

/// The URI to which the start of a resumable upload is posted.
pub fn upload_start_uri(api_key: &str) -> (r: String)
    ensures
        r@ == upload_start_uri_of(api_key@),
{
    let mut r = String::from_str("https://generativelanguage.googleapis.com/upload/v1beta/files?key=");
    r.append(api_key);
    r
}

/// The URI that lists the files uploaded under a key.
pub fn file_list_uri(api_key: &str) -> (r: String)
    ensures
        r@ == file_list_uri_of(api_key@),
{
    let mut r = String::from_str("https://generativelanguage.googleapis.com/v1beta/files/?key=");
    r.append(api_key);
    r
}

/// The body that starts the upload of a file with the given display name.
pub fn upload_metadata(display_name: &str) -> (r: String)
    ensures
        r@ == upload_metadata_of(display_name@),
{
    let mut r = String::from_str("{\"file\": {\"display_name\": \"");
    r.append(display_name);
    r.append("\"}}");
    r
}

} // verus!
