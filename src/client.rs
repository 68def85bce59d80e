//! The client: where requests go, how their URIs are written, and the
//! builders of the two routes of the API (listing models, generating content).
use std::sync::Arc;

use vstd::prelude::*;

use crate::chat::{Chat, Text};
use crate::types;

verus! {

/// Relies on `Arc::clone`: the new handle points at the same value.
#[verifier::external_body]
fn share_inner(inner: &Arc<ClientInner>) -> (r: Arc<ClientInner>)
    ensures
        *r == **inner,
{
    Arc::clone(inner)
}

/// The root of every URI of the API.
pub open spec fn base_uri() -> Seq<char> {
    "https://generativelanguage.googleapis.com"@
}

/// The HTTP method of a request.
#[derive(Debug, Clone, Copy, PartialEq, Eq, Structural)]
pub enum Method {
    Get,
    Post,
}

/// The text of one query parameter, with the separator that precedes it:
/// `?` for the first parameter of a URI, `&` for the others.
pub open spec fn query_param(first: bool, key: Seq<char>, value: Seq<char>) -> Seq<char> {
    (if first {
        "?"@
    } else {
        "&"@
    }) + key + "="@ + value
}

/// Writes a URI, keeping track of whether a query parameter was written.
pub struct Formatter {
    buf: String,
    is_first: bool,
}

impl Formatter {
    /// The text written so far.
    pub closed spec fn written(&self) -> Seq<char> {
        self.buf@
    }

    /// Whether no query parameter has been written yet.
    pub closed spec fn at_first_param(&self) -> bool {
        self.is_first
    }

    /// A formatter that has written `prefix` and no query parameter.
    pub fn new(prefix: &str) -> (r: Formatter)
        ensures
            r.written() == prefix@,
            r.at_first_param(),
    {
        Formatter { buf: String::from_str(prefix), is_first: true }
    }

    /// Writes a piece of the path.
    pub fn write_str(&mut self, s: &str)
        ensures
            final(self).written() == old(self).written() + s@,
            final(self).at_first_param() == old(self).at_first_param(),
    {
        self.buf.append(s);
    }

    /// Writes the query parameter `key=value`, after `?` if it is the first
    /// one and after `&` otherwise.
    pub fn write_query_param(&mut self, key: &str, value: &str)
        ensures
            final(self).written() == old(self).written() + query_param(
                old(self).at_first_param(),
                key@,
                value@,
            ),
            !final(self).at_first_param(),
    {
        if self.is_first {
            self.buf.append("?");
            self.is_first = false;
        } else {
            self.buf.append("&");
        }
        self.buf.append(key);
        self.buf.append("=");
        self.buf.append(value);
    }

    /// Writes the query parameter `key=value` where there is a value, and
    /// nothing otherwise.
    pub fn write_optional_query_param(&mut self, key: &str, value: Option<&str>)
        ensures
            value matches Some(v) ==> final(self).written() == old(self).written() + query_param(
                old(self).at_first_param(),
                key@,
                v@,
            ) && !final(self).at_first_param(),
            value is None ==> *final(self) == *old(self),
    {
        if let Some(value) = value {
            self.write_query_param(key, value)
        }
    }

    /// The text written.
    pub fn into_string(self) -> (r: String)
        ensures
            r@ == self.written(),
    {
        self.buf
    }
}

/// A route of the API: its method, the path and query it writes after the
/// base URI, and its body.
pub trait Request: Sized {
    /// What the API answers with.
    type Model;

    /// What is sent in the request body.
    type Body;

    /// The method of the request.
    spec fn spec_method(&self) -> Method;

    /// The path and query that the request writes after the base URI.
    spec fn spec_uri(&self) -> Seq<char>;

    /// Whether that text holds a query parameter.
    spec fn spec_has_query(&self) -> bool;

    /// The body that the request sends, if any.
    spec fn spec_body(self) -> Option<Self::Body>;

    /// The method of the request.
    fn method(&self) -> (r: Method)
        ensures
            r == self.spec_method(),
    ;

    /// Writes the path and query of the request.
    fn format_uri(&self, fmt: &mut Formatter)
        requires
            old(fmt).at_first_param(),
        ensures
            final(fmt).written() == old(fmt).written() + self.spec_uri(),
            final(fmt).at_first_param() == !self.spec_has_query(),
    ;

    /// The body to send, if any.
    fn body(self) -> (r: Option<Self::Body>)
        ensures
            r == self.spec_body(),
    ;
}

/// The full URI of a route, with the API key as its last query parameter.
pub open spec fn route_uri(path: Seq<char>, has_query: bool, key: Seq<char>) -> Seq<char> {
    base_uri() + "/"@ + path + query_param(!has_query, "key"@, key)
}

/// A request bound to the client that will send it.
pub struct Route<T> {
    client: Client,
    kind: T,
}

impl<T> Route<T> {
    /// The request.
    pub closed spec fn spec_kind(&self) -> T {
        self.kind
    }

    /// The API key of the client that sends the route.
    pub closed spec fn spec_key(&self) -> Seq<char> {
        self.client.spec_key()
    }

    /// A route that `client` will send.
    pub fn new(client: &Client, kind: T) -> (r: Route<T>)
        ensures
            r.spec_kind() == kind,
            r.spec_key() == client.spec_key(),
    {
        Route { client: client.share(), kind }
    }

    /// The request.
    pub fn kind(&self) -> (r: &T)
        ensures
            *r == self.spec_kind(),
    {
        &self.kind
    }

    /// The request, to be changed in place.
    pub fn kind_mut(&mut self) -> (r: &mut T)
        ensures
            *r == old(self).spec_kind(),
            final(self).spec_kind() == *final(r),
            final(self).spec_key() == old(self).spec_key(),
    {
        &mut self.kind
    }

    /// The client that sends the route.
    pub fn client(&self) -> (r: &Client)
        ensures
            r.spec_key() == self.spec_key(),
    {
        &self.client
    }
}

impl<T: Request> Route<T> {
    /// The URI of the route, with the given API key.
    pub fn uri_with_key(&self, key: &str) -> (r: String)
        ensures
            r@ == route_uri(self.spec_kind().spec_uri(), self.spec_kind().spec_has_query(), key@),
    {
        let mut fmt = Formatter::new("https://generativelanguage.googleapis.com/");
        proof {
            reveal_strlit("https://generativelanguage.googleapis.com/");
            reveal_strlit("https://generativelanguage.googleapis.com");
            reveal_strlit("/");
        }
        assert(fmt.written() == base_uri() + "/"@);
        self.kind.format_uri(&mut fmt);
        fmt.write_query_param("key", key);
        let r = fmt.into_string();
        assert(r@ =~= route_uri(self.spec_kind().spec_uri(), self.spec_kind().spec_has_query(), key@));
        r
    }

    /// The URI of the route, with the client's API key.
    pub fn uri(&self) -> (r: String)
        ensures
            r@ == route_uri(
                self.spec_kind().spec_uri(),
                self.spec_kind().spec_has_query(),
                self.spec_key(),
            ),
    {
        let key = self.client.key();
        self.uri_with_key(key)
    }

    /// The method of the route.
    pub fn method(&self) -> (r: Method)
        ensures
            r == self.spec_kind().spec_method(),
    {
        self.kind.method()
    }

    /// The body to send, if any.
    pub fn into_body(self) -> (r: Option<T::Body>)
        ensures
            r == self.spec_kind().spec_body(),
    {
        self.kind.body()
    }
}

/// A handle on the API: the API key, shared by its clones. The requests
/// themselves are sent by the caller's HTTP client.
#[derive(Clone)]
pub struct Client {
    inner: Arc<ClientInner>,
}

/// What the clones of a [`Client`] share.
///
/// The key is kept private and the type has no `Debug`, so that it is not
/// printed by accident.
pub struct ClientInner {
    key: String,
}

impl ClientInner {
    fn new(key: String) -> (r: Arc<ClientInner>)
        ensures
            r.key == key,
    {
        Arc::new(ClientInner { key })
    }
}

impl Client {
    /// The API key.
    pub closed spec fn spec_key(&self) -> Seq<char> {
        self.inner.key@
    }

    /// Another handle on the same key.
    pub fn share(&self) -> (r: Client)
        ensures
            r.spec_key() == self.spec_key(),
    {
        Client { inner: share_inner(&self.inner) }
    }

    /// A client that authenticates with `key`.
    pub fn new(key: &str) -> (r: Client)
        ensures
            r.spec_key() == key@,
    {
        Client { inner: ClientInner::new(String::from_str(key)) }
    }

    /// The API key.
    pub fn key(&self) -> (r: &str)
        ensures
            r@ == self.spec_key(),
    {
        self.inner.key.as_str()
    }

    /// A new chat with `model`.
    pub fn chat(&self, model: &str) -> (r: Chat<Text>)
        ensures
            r.spec_model() == model@,
            r.spec_key() == self.spec_key(),
            r.spec_system_instruction() is None,
            r.spec_history().len() == 0,
            r.spec_config() is None,
    {
        Chat::new(self, model)
    }

    /// The route that lists the models, one page at a time.
    pub fn models(&self) -> (r: Route<Models>)
        ensures
            r.spec_key() == self.spec_key(),
            r.spec_kind().page_size is None,
            r.spec_kind().page_token is None,
    {
        Route::new(self, Models::default())
    }

    /// The route that asks `model` to generate content, with an empty body.
    pub fn generate_content(&self, model: &str) -> (r: Route<GenerateContent>)
        ensures
            r.spec_key() == self.spec_key(),
            r.spec_kind().model@ == model@,
            r.spec_kind().body.contents@.len() == 0,
            r.spec_kind().body.tools@.len() == 0,
            r.spec_kind().body.safety_settings@.len() == 0,
            r.spec_kind().body.generation_config is None,
            r.spec_kind().body.system_instruction is None,
    {
        Route::new(self, GenerateContent::new(String::from_str(model)))
    }
}

/// A message from the user, holding one text part.
pub open spec fn is_user_text(c: types::Content, text: Seq<char>) -> bool {
    &&& c.role == types::Role::User
    &&& c.parts@.len() == 1
    &&& c.parts@[0].text matches Some(t) && t@ == text
    &&& c.parts@[0].inline_data is None
    &&& c.parts@[0].file_data is None
    &&& c.parts@[0].video_metadata is None
}

/// A system instruction made of one text part.
pub open spec fn is_instruction(s: types::SystemInstructionContent, text: Seq<char>) -> bool {
    &&& s.parts@.len() == 1
    &&& s.parts@[0].text matches Some(t) && t@ == text
}

/// A request to generate content with a model.
pub struct GenerateContent {
    pub model: String,
    pub body: types::GenerateContent,
}

impl GenerateContent {
    /// A request to `model` with an empty body.
    pub fn new(model: String) -> (r: GenerateContent)
        ensures
            r.model == model,
            r.body.contents@.len() == 0,
            r.body.tools@.len() == 0,
            r.body.safety_settings@.len() == 0,
            r.body.generation_config is None,
            r.body.system_instruction is None,
    {
        GenerateContent { model, body: types::GenerateContent::empty() }
    }

    /// Sets the generation parameters.
    pub fn config(&mut self, config: types::GenerationConfig)
        ensures
            final(self).model == old(self).model,
            final(self).body.generation_config == Some(config),
            final(self).body.contents == old(self).body.contents,
            final(self).body.tools == old(self).body.tools,
            final(self).body.safety_settings == old(self).body.safety_settings,
            final(self).body.system_instruction == old(self).body.system_instruction,
    {
        self.body.generation_config = Some(config);
    }

    /// Sets the system instruction to the given text.
    pub fn system_instruction(&mut self, instruction: &str)
        ensures
            final(self).model == old(self).model,
            final(self).body.system_instruction matches Some(s) && is_instruction(s, instruction@),
            final(self).body.contents == old(self).body.contents,
            final(self).body.tools == old(self).body.tools,
            final(self).body.safety_settings == old(self).body.safety_settings,
            final(self).body.generation_config == old(self).body.generation_config,
    {
        self.body.system_instruction = Some(
            types::SystemInstructionContent {
                parts: vec![types::SystemInstructionPart { text: Some(String::from_str(instruction)) }],
            },
        );
    }

    /// Replaces the messages.
    pub fn contents(&mut self, contents: Vec<types::Content>)
        ensures
            final(self).model == old(self).model,
            final(self).body.contents == contents,
            final(self).body.tools == old(self).body.tools,
            final(self).body.safety_settings == old(self).body.safety_settings,
            final(self).body.generation_config == old(self).body.generation_config,
            final(self).body.system_instruction == old(self).body.system_instruction,
    {
        self.body.contents = contents;
    }

    /// Appends a message from the user holding the given text.
    pub fn message(&mut self, message: &str)
        ensures
            final(self).model == old(self).model,
            final(self).body.contents@.len() == old(self).body.contents@.len() + 1,
            final(self).body.contents@.take(old(self).body.contents@.len() as int)
                == old(self).body.contents@,
            is_user_text(final(self).body.contents@.last(), message@),
            final(self).body.tools == old(self).body.tools,
            final(self).body.safety_settings == old(self).body.safety_settings,
            final(self).body.generation_config == old(self).body.generation_config,
            final(self).body.system_instruction == old(self).body.system_instruction,
    {
        self.body.contents.push(
            types::Content { role: types::Role::User, parts: vec![types::Part::text(message)] },
        );
        assert(self.body.contents@.take(old(self).body.contents@.len() as int)
            =~= old(self).body.contents@);
    }
}

/// The path of a generate-content request.
pub open spec fn generate_content_path(model: Seq<char>) -> Seq<char> {
    "v1beta/"@ + "models/"@ + model + ":generateContent"@
}

impl Request for GenerateContent {
    type Model = types::Response;

    type Body = types::GenerateContent;

    open spec fn spec_method(&self) -> Method {
        Method::Post
    }

    open spec fn spec_uri(&self) -> Seq<char> {
        generate_content_path(self.model@)
    }

    open spec fn spec_has_query(&self) -> bool {
        false
    }

    open spec fn spec_body(self) -> Option<types::GenerateContent> {
        Some(self.body)
    }

    fn method(&self) -> (r: Method) {
        Method::Post
    }

    fn format_uri(&self, fmt: &mut Formatter) {
        fmt.write_str("v1beta/");
        fmt.write_str("models/");
        fmt.write_str(self.model.as_str());
        fmt.write_str(":generateContent");
        assert(fmt.written() =~= old(fmt).written() + self.spec_uri());
    }

    fn body(self) -> (r: Option<types::GenerateContent>) {
        Some(self.body)
    }
}

/// A request for one page of the list of models.
pub struct Models {
    pub page_size: Option<usize>,
    pub page_token: Option<String>,
}

impl Default for Models {
    fn default() -> (r: Models)
        ensures
            r.page_size is None,
            r.page_token is None,
    {
        Models { page_size: None, page_token: None }
    }
}

impl Models {
    /// Sets how many models a page holds at most.
    pub fn page_size(&mut self, size: usize)
        ensures
            final(self).page_size == Some(size),
            final(self).page_token == old(self).page_token,
    {
        self.page_size = Some(size);
    }

    /// Sets the token of the page to fetch.
    pub fn page_token(&mut self, token: &str)
        ensures
            final(self).page_size == old(self).page_size,
            final(self).page_token matches Some(t) && t@ == token@,
    {
        self.page_token = Some(String::from_str(token));
    }
}

/// The decimal digit for `d`, below ten.
pub open spec fn digit_char(d: nat) -> char {
    if d == 0 {
        '0'
    } else if d == 1 {
        '1'
    } else if d == 2 {
        '2'
    } else if d == 3 {
        '3'
    } else if d == 4 {
        '4'
    } else if d == 5 {
        '5'
    } else if d == 6 {
        '6'
    } else if d == 7 {
        '7'
    } else if d == 8 {
        '8'
    } else {
        '9'
    }
}

/// The decimal numeral of `n`, without leading zeros.
pub open spec fn decimal_of(n: nat) -> Seq<char>
    decreases n,
{
    if n < 10 {
        seq![digit_char(n)]
    } else {
        decimal_of(n / 10).push(digit_char(n % 10))
    }
}

fn digit_str(d: usize) -> (r: &'static str)
    requires
        d < 10,
    ensures
        r@ == seq![digit_char(d as nat)],
{
    proof {
        reveal_strlit("0");
        reveal_strlit("1");
        reveal_strlit("2");
        reveal_strlit("3");
        reveal_strlit("4");
        reveal_strlit("5");
        reveal_strlit("6");
        reveal_strlit("7");
        reveal_strlit("8");
        reveal_strlit("9");
    }
    let r = if d == 0 {
        "0"
    } else if d == 1 {
        "1"
    } else if d == 2 {
        "2"
    } else if d == 3 {
        "3"
    } else if d == 4 {
        "4"
    } else if d == 5 {
        "5"
    } else if d == 6 {
        "6"
    } else if d == 7 {
        "7"
    } else if d == 8 {
        "8"
    } else {
        "9"
    };
    assert(r@ =~= seq![digit_char(d as nat)]);
    r
}

/// The decimal numeral of `n`.
pub fn decimal(n: usize) -> (r: String)
    ensures
        r@ == decimal_of(n as nat),
    decreases n,
{
    if n < 10 {
        String::from_str(digit_str(n))
    } else {
        let mut r = decimal(n / 10);
        r.append(digit_str(n % 10));
        r
    }
}

/// The path and query of a request for a page of models.
pub open spec fn models_uri(page_size: Option<usize>, page_token: Option<String>) -> Seq<char> {
    let path = "v1beta/"@ + "models"@;
    let with_size = match page_size {
        Some(n) => path + query_param(true, "page_size"@, decimal_of(n as nat)),
        None => path,
    };
    match page_token {
        Some(t) => with_size + query_param(page_size is None, "page_token"@, t@),
        None => with_size,
    }
}

impl Request for Models {
    type Model = types::Models;

    type Body = ();

    open spec fn spec_method(&self) -> Method {
        Method::Get
    }

    open spec fn spec_uri(&self) -> Seq<char> {
        models_uri(self.page_size, self.page_token)
    }

    open spec fn spec_has_query(&self) -> bool {
        self.page_size is Some || self.page_token is Some
    }

    open spec fn spec_body(self) -> Option<()> {
        None
    }

    fn method(&self) -> (r: Method) {
        Method::Get
    }

    fn format_uri(&self, fmt: &mut Formatter) {
        fmt.write_str("v1beta/");
        fmt.write_str("models");
        let size = match self.page_size {
            Some(n) => Some(decimal(n)),
            None => None,
        };
        let size_ref = match &size {
            Some(s) => Some(s.as_str()),
            None => None,
        };
        fmt.write_optional_query_param("page_size", size_ref);
        let token_ref = match &self.page_token {
            Some(t) => Some(t.as_str()),
            None => None,
        };
        fmt.write_optional_query_param("page_token", token_ref);
        assert(fmt.written() =~= old(fmt).written() + self.spec_uri());
    }

    fn body(self) -> (r: Option<()>) {
        None
    }
}

} // verus!
