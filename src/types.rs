//! The request and response models of the API.
//!
//! Sampling parameters that the API takes as 32-bit floats are held here as
//! their IEEE-754 bit patterns (`f32::to_bits`), so that every model is made
//! of plain values.
use std::collections::BTreeMap;

use vstd::prelude::*;

use crate::error::GeminiError;

verus! {

/// A JSON value that the library carries without reading it.
#[verifier::external_type_specification]
#[verifier::external_body]
pub struct ExJsonValue(serde_json::Value);

/// The author of a piece of content.
#[derive(Debug, Clone, Copy, PartialEq, Eq, Structural)]
pub enum Role {
    User,
    Model,
}

/// What the API answers: the expected model, or an error envelope.
#[derive(Debug)]
pub enum ApiResponse<T> {
    Success(T),
    Failure(ApiError),
}

impl<T> ApiResponse<T> {
    /// The answer as a result: the model, or the error detail of the
    /// envelope as [`GeminiError::Gemini`].
    pub fn into_result(self) -> (r: Result<T, GeminiError>)
        ensures
            self matches ApiResponse::Success(m) ==> r == Ok::<T, GeminiError>(m),
            self matches ApiResponse::Failure(e) ==> r == Err::<T, GeminiError>(GeminiError::Gemini(e.error)),
    {
        match self {
            ApiResponse::Success(m) => Ok(m),
            ApiResponse::Failure(e) => Err(GeminiError::Gemini(e.error)),
        }
    }
}

/// The error envelope of the API.
#[derive(Debug)]
pub struct ApiError {
    pub error: ErrorDetail,
}

/// The description of an error reported by the API.
#[derive(Debug)]
pub struct ErrorDetail {
    pub code: u16,
    pub message: String,
    pub status: Status,
    pub details: Vec<ErrorInfo>,
}

/// Structured detail attached to an API error; `type_url` is its `@type`.
#[derive(Debug)]
pub struct ErrorInfo {
    pub type_url: String,
    pub reason: Option<String>,
    pub domain: Option<String>,
    pub metadata: Option<BTreeMap<String, String>>,
}

/// The canonical status of an API error.
#[derive(Debug, Clone, Copy, PartialEq, Eq, Structural)]
pub enum Status {
    InvalidArgument,
    FailedPrecondition,
    PermissionDenied,
    NotFound,
    ResourceExhausted,
    Internal,
    Unavailable,
    DeadlineExceeded,
}

/// One page of the list of models.
#[derive(Debug)]
pub struct Models {
    pub models: Vec<Model>,
    pub next_page_token: Option<String>,
}

/// A model offered by the API.
#[derive(Debug, Default)]
pub struct Model {
    pub name: String,
    pub version: String,
    pub display_name: String,
    pub description: String,
    pub input_token_limit: i32,
    pub output_token_limit: i32,
    pub supported_generation_methods: Vec<String>,
    /// Bit pattern of the default sampling temperature.
    pub temperature_bits: Option<u32>,
    /// Bit pattern of the default nucleus-sampling mass.
    pub top_p_bits: Option<u32>,
    pub top_k: Option<i32>,
}

/// The answer to a generate-content request.
#[derive(Debug)]
pub struct Response {
    pub candidates: Vec<Candidate>,
    pub prompt_feedback: Option<PromptFeedback>,
    pub usage_metadata: Option<UsageMetadata>,
}

/// The text of an optional text field, empty where it is absent.
pub open spec fn text_or_empty(t: Option<String>) -> Seq<char> {
    match t {
        Some(s) => s@,
        None => Seq::empty(),
    }
}

impl Response {
    /// The text of the first part of the first candidate.
    pub open spec fn first_text(self) -> Seq<char> {
        text_or_empty(self.candidates@[0].content.parts@[0].text)
    }

    /// The text of the first part of the first candidate, empty where that
    /// part holds no text.
    pub fn to_string(&self) -> (r: String)
        requires
            self.candidates@.len() > 0,
            self.candidates@[0].content.parts@.len() > 0,
        ensures
            r@ == self.first_text(),
    {
        match &self.candidates[0].content.parts[0].text {
            Some(t) => t.clone(),
            None => String::new(),
        }
    }
}

/// Token counts of a request and its answer.
#[derive(Debug, Clone, Copy, PartialEq, Eq, Structural)]
pub struct UsageMetadata {
    pub prompt_token_count: u64,
    pub candidates_token_count: u64,
}

/// One candidate answer.
#[derive(Debug)]
pub struct Candidate {
    pub content: Content,
    pub finish_reason: Option<FinishReason>,
    pub index: Option<i32>,
    pub safety_ratings: Vec<SafetyRating>,
}

/// Safety feedback on the prompt.
#[derive(Debug)]
pub struct PromptFeedback {
    pub safety_ratings: Vec<SafetyRating>,
}

/// The rating of a piece of content in one harm category.
#[derive(Debug, Clone, Copy, PartialEq, Eq, Structural)]
pub struct SafetyRating {
    pub category: HarmCategory,
    pub probability: HarmProbability,
    pub blocked: bool,
}

/// A message: a role and its parts.
#[derive(Debug, Clone)]
pub struct Content {
    pub role: Role,
    pub parts: Vec<Part>,
}

/// One part of a message; at most one kind of data is normally set.
#[derive(Debug, Default, Clone)]
pub struct Part {
    pub text: Option<String>,
    pub inline_data: Option<InlineData>,
    pub file_data: Option<FileData>,
    pub video_metadata: Option<VideoMetadata>,
}

impl Part {
    /// A part that holds only the given text.
    pub fn text(text: &str) -> (r: Part)
        ensures
            r.text matches Some(t) && t@ == text@,
            r.inline_data is None,
            r.file_data is None,
            r.video_metadata is None,
    {
        Part {
            text: Some(String::from_str(text)),
            inline_data: None,
            file_data: None,
            video_metadata: None,
        }
    }

    /// A copy of this part, equal to it.
    pub fn duplicate(&self) -> (r: Part)
        ensures
            r == *self,
    {
        Part {
            text: duplicate_text(&self.text),
            inline_data: match &self.inline_data {
                Some(d) => Some(InlineData { mime_type: d.mime_type.clone(), data: d.data.clone() }),
                None => None,
            },
            file_data: match &self.file_data {
                Some(d) => Some(
                    FileData { mime_type: d.mime_type.clone(), file_uri: d.file_uri.clone() },
                ),
                None => None,
            },
            video_metadata: self.video_metadata,
        }
    }
}

/// A copy of an optional string, equal to it.
pub fn duplicate_text(t: &Option<String>) -> (r: Option<String>)
    ensures
        r == *t,
{
    match t {
        Some(s) => Some(s.clone()),
        None => None,
    }
}

/// A copy of a list of strings, equal to it.
pub fn duplicate_texts(v: &Vec<String>) -> (r: Vec<String>)
    ensures
        r@ == v@,
{
    let mut r: Vec<String> = Vec::new();
    let mut i: usize = 0;
    while i < v.len()
        invariant
            i <= v@.len(),
            r@ == v@.subrange(0, i as int),
        decreases v@.len() - i,
    {
        r.push(v[i].clone());
        i = i + 1;
    }
    assert(r@ =~= v@);
    r
}

/// The strings of an optional list.
pub open spec fn texts_of(t: Option<Vec<String>>) -> Option<Seq<String>> {
    match t {
        Some(v) => Some(v@),
        None => None,
    }
}

/// A copy of an optional list of strings, with the same strings.
pub fn duplicate_text_list(t: &Option<Vec<String>>) -> (r: Option<Vec<String>>)
    ensures
        texts_of(r) == texts_of(*t),
{
    match t {
        Some(v) => Some(duplicate_texts(v)),
        None => None,
    }
}

impl Content {
    /// A copy of this content, equal to it.
    pub fn duplicate(&self) -> (r: Content)
        ensures
            r.role == self.role,
            r.parts@ == self.parts@,
    {
        let mut parts: Vec<Part> = Vec::new();
        let mut i: usize = 0;
        while i < self.parts.len()
            invariant
                i <= self.parts@.len(),
                parts@ == self.parts@.subrange(0, i as int),
            decreases self.parts@.len() - i,
        {
            parts.push(self.parts[i].duplicate());
            i = i + 1;
        }
        assert(parts@ =~= self.parts@);
        Content { role: self.role, parts }
    }
}

/// Two contents are alike: same role, same parts.
pub open spec fn same_content(a: Content, b: Content) -> bool {
    a.role == b.role && a.parts@ == b.parts@
}

/// A copy of a list of contents, each alike to the one it copies.
pub fn duplicate_contents(v: &Vec<Content>) -> (r: Vec<Content>)
    ensures
        r@.len() == v@.len(),
        forall|i: int| 0 <= i < v@.len() ==> same_content(#[trigger] r@[i], v@[i]),
{
    let mut r: Vec<Content> = Vec::new();
    let mut i: usize = 0;
    while i < v.len()
        invariant
            i <= v@.len(),
            r@.len() == i,
            forall|j: int| 0 <= j < i ==> same_content(#[trigger] r@[j], v@[j]),
        decreases v@.len() - i,
    {
        r.push(v[i].duplicate());
        i = i + 1;
    }
    r
}

/// Start and end of a video clip.
#[derive(Debug, Clone, Copy, PartialEq, Eq, Structural)]
pub struct VideoMetadata {
    pub start_offset: StartOffset,
    pub end_offset: EndOffset,
}

/// End of a video clip.
#[derive(Debug, Clone, Copy, PartialEq, Eq, Structural)]
pub struct EndOffset {
    pub seconds: i32,
    pub nanos: i32,
}

/// Start of a video clip.
#[derive(Debug, Clone, Copy, PartialEq, Eq, Structural)]
pub struct StartOffset {
    pub seconds: i32,
    pub nanos: i32,
}

/// A file uploaded beforehand, by URI.
#[derive(Debug, Clone)]
pub struct FileData {
    pub mime_type: String,
    pub file_uri: String,
}

/// Data sent inline, base64-encoded.
#[derive(Debug, Clone)]
pub struct InlineData {
    pub mime_type: String,
    pub data: String,
}

/// Why the model stopped generating.
#[derive(Debug, Clone, Copy, PartialEq, Eq, Structural)]
pub enum FinishReason {
    FinishReasonUnspecified,
    Stop,
    MaxTokens,
    Safety,
    Recitation,
    Language,
    Other,
    Blocklist,
    ProhibitedContent,
    Spii,
    MalformedFunctionCall,
    ImageSafety,
}

/// A harm category.
#[derive(Debug, Clone, Copy, PartialEq, Eq, Structural)]
pub enum HarmCategory {
    HarmCategoryUnspecified,
    HarmCategoryDerogatory,
    HarmCategoryToxicity,
    HarmCategoryViolence,
    HarmCategorySexual,
    HarmCategoryMedical,
    HarmCategoryDangerous,
    HarmCategoryHarassment,
    HarmCategoryHateSpeech,
    HarmCategorySexuallyExplicit,
    HarmCategoryDangerousContent,
    HarmCategoryCivicIntegrity,
}

/// The probability at and above which content is blocked.
#[derive(Debug, Clone, Copy, PartialEq, Eq, Structural)]
pub enum HarmBlockThreshold {
    BlockNone,
    BlockLowAndAbove,
    BlockMedAndAbove,
    BlockHighAndAbove,
}

/// The probability that content is harmful.
#[derive(Debug, Clone, Copy, PartialEq, Eq, Structural)]
pub enum HarmProbability {
    HarmProbabilityUnspecified,
    Negligible,
    Low,
    Medium,
    High,
}

/// Functions that the model may call.
#[derive(Debug)]
pub struct Tools {
    pub function_declarations: Vec<FunctionDeclaration>,
}

/// A function that the model may call, with a JSON schema of its parameters.
#[derive(Debug)]
pub struct FunctionDeclaration {
    pub name: String,
    pub description: String,
    pub parameters: serde_json::Value,
}

/// The body of a generate-content request.
#[derive(Debug, Default)]
pub struct GenerateContent {
    pub contents: Vec<Content>,
    pub tools: Vec<Tools>,
    pub safety_settings: Vec<SafetySettings>,
    pub generation_config: Option<GenerationConfig>,
    pub system_instruction: Option<SystemInstructionContent>,
}

impl GenerateContent {
    /// A body with no contents, tools, settings, configuration or
    /// instruction.
    pub fn empty() -> (r: GenerateContent)
        ensures
            r.contents@.len() == 0,
            r.tools@.len() == 0,
            r.safety_settings@.len() == 0,
            r.generation_config is None,
            r.system_instruction is None,
    {
        GenerateContent {
            contents: Vec::new(),
            tools: Vec::new(),
            safety_settings: Vec::new(),
            generation_config: None,
            system_instruction: None,
        }
    }
}

/// The system instruction of a request.
#[derive(Debug)]
pub struct SystemInstructionContent {
    pub parts: Vec<SystemInstructionPart>,
}

/// One part of a system instruction.
#[derive(Debug)]
pub struct SystemInstructionPart {
    pub text: Option<String>,
}

/// Parameters of generation.
#[derive(Debug, Default)]
pub struct GenerationConfig {
    /// Bit pattern of the sampling temperature.
    pub temperature_bits: Option<u32>,
    /// Bit pattern of the nucleus-sampling mass.
    pub top_p_bits: Option<u32>,
    pub top_k: Option<i32>,
    pub candidate_count: Option<i32>,
    pub max_output_tokens: Option<i32>,
    pub stop_sequences: Option<Vec<String>>,
    pub response_mime_type: Option<String>,
    pub response_schema: Option<Schema>,
}

impl GenerationConfig {
    /// A configuration with nothing set.
    pub fn empty() -> (r: GenerationConfig)
        ensures
            r == GenerationConfig::unset(),
    {
        GenerationConfig {
            temperature_bits: None,
            top_p_bits: None,
            top_k: None,
            candidate_count: None,
            max_output_tokens: None,
            stop_sequences: None,
            response_mime_type: None,
            response_schema: None,
        }
    }

    /// A copy of this configuration, alike to it.
    pub fn duplicate(&self) -> (r: GenerationConfig)
        ensures
            same_config(r, *self),
    {
        GenerationConfig {
            temperature_bits: self.temperature_bits,
            top_p_bits: self.top_p_bits,
            top_k: self.top_k,
            candidate_count: self.candidate_count,
            max_output_tokens: self.max_output_tokens,
            stop_sequences: duplicate_text_list(&self.stop_sequences),
            response_mime_type: duplicate_text(&self.response_mime_type),
            response_schema: match &self.response_schema {
                Some(s) => Some(s.duplicate()),
                None => None,
            },
        }
    }

    /// The configuration with nothing set.
    pub open spec fn unset() -> GenerationConfig {
        GenerationConfig {
            temperature_bits: None,
            top_p_bits: None,
            top_k: None,
            candidate_count: None,
            max_output_tokens: None,
            stop_sequences: None,
            response_mime_type: None,
            response_schema: None,
        }
    }
}

/// A safety setting for one category.
#[derive(Debug, Clone, Copy, PartialEq, Eq, Structural)]
pub struct SafetySettings {
    pub category: HarmCategory,
    pub threshold: HarmBlockThreshold,
}

/// A subset of an OpenAPI schema, describing the JSON that the model is to
/// answer with. `properties` lists each property name once, with its schema.
#[derive(Debug, Default)]
pub struct Schema {
    pub schema_type: Option<Type>,
    pub format: Option<String>,
    pub description: Option<String>,
    pub nullable: Option<bool>,
    pub enum_values: Option<Vec<String>>,
    pub max_items: Option<String>,
    pub min_items: Option<String>,
    pub properties: Option<Vec<(String, Schema)>>,
    pub required: Option<Vec<String>>,
    pub property_ordering: Option<Vec<String>>,
    pub items: Option<Box<Schema>>,
}

/// Two configurations are alike: the same settings, lists of the same
/// strings, and alike schemas.
pub open spec fn same_config(a: GenerationConfig, b: GenerationConfig) -> bool {
    &&& a.temperature_bits == b.temperature_bits
    &&& a.top_p_bits == b.top_p_bits
    &&& a.top_k == b.top_k
    &&& a.candidate_count == b.candidate_count
    &&& a.max_output_tokens == b.max_output_tokens
    &&& texts_of(a.stop_sequences) == texts_of(b.stop_sequences)
    &&& a.response_mime_type == b.response_mime_type
    &&& match (a.response_schema, b.response_schema) {
        (Some(x), Some(y)) => same_schema(x, y),
        (None, None) => true,
        _ => false,
    }
}

/// Two schemas are alike: the same settings and lists of the same strings,
/// the same property names in the same order with alike schemas, and alike
/// item schemas.
pub open spec fn same_schema(a: Schema, b: Schema) -> bool
    decreases a,
{
    &&& a.schema_type == b.schema_type
    &&& a.format == b.format
    &&& a.description == b.description
    &&& a.nullable == b.nullable
    &&& texts_of(a.enum_values) == texts_of(b.enum_values)
    &&& a.max_items == b.max_items
    &&& a.min_items == b.min_items
    &&& texts_of(a.required) == texts_of(b.required)
    &&& texts_of(a.property_ordering) == texts_of(b.property_ordering)
    &&& match (a.properties, b.properties) {
        (Some(pa), Some(pb)) => {
            &&& pa@.len() == pb@.len()
            &&& forall|i: int|
                0 <= i < pa@.len() ==> {
                    &&& (#[trigger] pa@[i]).0 == pb@[i].0
                    &&& same_schema(pa@[i].1, pb@[i].1)
                }
        },
        (None, None) => true,
        _ => false,
    }
    &&& match (a.items, b.items) {
        (Some(x), Some(y)) => same_schema(*x, *y),
        (None, None) => true,
        _ => false,
    }
}

impl Schema {
    /// A copy of this schema, alike to it.
    pub fn duplicate(&self) -> (r: Schema)
        ensures
            same_schema(r, *self),
        decreases self,
    {
        let properties = match &self.properties {
            Some(props) => {
                let mut out: Vec<(String, Schema)> = Vec::new();
                let mut i: usize = 0;
                while i < props.len()
                    invariant
                        self.properties == Some(*props),
                        i <= props@.len(),
                        out@.len() == i,
                        forall|j: int|
                            0 <= j < i ==> {
                                &&& (#[trigger] out@[j]).0 == props@[j].0
                                &&& same_schema(out@[j].1, props@[j].1)
                            },
                    decreases props@.len() - i,
                {
                    proof {
                        let ps = self.properties->0;
                        assert(decreases_to!(*self => self.properties));
                        assert(decreases_to!(self.properties => ps));
                        assert(decreases_to!(ps => ps@));
                        assert(decreases_to!(ps@ => ps@[i as int]));
                        assert(decreases_to!(ps@[i as int] => ps@[i as int].1));
                    }
                    let entry = (props[i].0.clone(), props[i].1.duplicate());
                    out.push(entry);
                    i = i + 1;
                }
                Some(out)
            },
            None => None,
        };
        Schema {
            schema_type: self.schema_type,
            format: duplicate_text(&self.format),
            description: duplicate_text(&self.description),
            nullable: self.nullable,
            enum_values: duplicate_text_list(&self.enum_values),
            max_items: duplicate_text(&self.max_items),
            min_items: duplicate_text(&self.min_items),
            properties,
            required: duplicate_text_list(&self.required),
            property_ordering: duplicate_text_list(&self.property_ordering),
            items: match &self.items {
                Some(b) => Some(Box::new(b.duplicate())),
                None => None,
            },
        }
    }
}

/// The type of a schema.
#[derive(Debug, Clone, Copy, PartialEq, Eq, Structural)]
pub enum Type {
    Object,
    Array,
    String,
    Integer,
    Number,
    Boolean,
}

} // verus!
