use vstd::prelude::*;
use crate::params::{ParamValue, Field, fields_view};
use crate::json::{encode_object, object_text};

verus! {

/// The status of a successful reply.
pub const OK: u16 = 200;

/// The status reported when no reply came, or a reply could not be read.
pub const BAD_REQUEST: u16 = 400;

/// The HTTP method of a request.
#[derive(PartialEq, Eq, Structural, Debug, Clone, Copy)]
pub enum Method {
    Get,
    Post,
}

/// One request to the service, ready to send: method, full URL, and the JSON
/// body of a POST.
pub struct ApiRequest {
    pub method: Method,
    pub url: String,
    pub body: Option<String>,
}

/// The sub-path of the images endpoint that a request goes to.
#[derive(PartialEq, Eq, Structural, Debug, Clone, Copy)]
pub enum ImageRequestType {
    Generations,
    Edits,
    Variations,
}

impl ImageRequestType {
    pub open spec fn path(&self) -> Seq<char> {
        match self {
            ImageRequestType::Generations => "generations"@,
            ImageRequestType::Edits => "edits"@,
            ImageRequestType::Variations => "variations"@,
        }
    }

    /// The sub-path's name.
    pub fn to_string(&self) -> (r: String)
        ensures
            r@ == self.path(),
    {
        match self {
            ImageRequestType::Generations => "generations".to_owned(),
            ImageRequestType::Edits => "edits".to_owned(),
            ImageRequestType::Variations => "variations".to_owned(),
        }
    }
}

/// The service's address and API version, before each endpoint's path.
pub open spec fn api_root() -> Seq<char> {
    "https://api.openai.com/v1"@
}

/// A POST request to `url` whose body is `body` written as a JSON object.
pub open spec fn is_post_of(r: ApiRequest, url: Seq<char>, body: Seq<Field>) -> bool {
    &&& r.method == Method::Post
    &&& r.url@ == url
    &&& r.body matches Some(b) && b@ == object_text(body)
}

fn post(url: String, body: &Vec<(String, ParamValue)>) -> (r: ApiRequest)
    ensures
        is_post_of(r, url@, fields_view(body@)),
{
    ApiRequest { method: Method::Post, url, body: Some(encode_object(body)) }
}

fn endpoint(path: &str) -> (r: String)
    ensures
        r@ == api_root() + path@,
{
    let mut url = "https://api.openai.com/v1".to_owned();
    url.append(path);
    url
}

/// The request for the `/completions` endpoint.
pub fn completions(arguments: &Vec<(String, ParamValue)>) -> (r: ApiRequest)
    ensures
        is_post_of(r, api_root() + "/completions"@, fields_view(arguments@)),
{
    post(endpoint("/completions"), arguments)
}

/// The request for the `/edits` endpoint.
pub fn edits(arguments: &Vec<(String, ParamValue)>) -> (r: ApiRequest)
    ensures
        is_post_of(r, api_root() + "/edits"@, fields_view(arguments@)),
{
    post(endpoint("/edits"), arguments)
}

/// The request for one of the `/images` endpoints.
pub fn images(request_type: ImageRequestType, arguments: &Vec<(String, ParamValue)>) -> (r:
    ApiRequest)
    ensures
        is_post_of(r, api_root() + "/images/"@ + request_type.path(), fields_view(arguments@)),
{
    let mut url = endpoint("/images/");
    let kind = request_type.to_string();
    url.append(kind.as_str());
    post(url, arguments)
}

/// The request for the `/models` endpoint: the whole list, or one model by
/// its identifier.
pub fn models(model_name: Option<String>) -> (r: ApiRequest)
    ensures
        r.method == Method::Get,
        r.body is None,
        r.url@ == match model_name {
            Some(name) => api_root() + "/models/"@ + name@,
            None => api_root() + "/models"@,
        },
{
    let url = match model_name {
        Some(name) => {
            let mut url = endpoint("/models/");
            url.append(name.as_str());
            url
        },
        None => endpoint("/models"),
    };
    ApiRequest { method: Method::Get, url, body: None }
}

/// The value of the `Authorization` header for an API key.
pub fn auth_header(api_key: &str) -> (r: String)
    ensures
        r@ == "Bearer "@ + api_key@,
{
    let mut h = "Bearer ".to_owned();
    h.append(api_key);
    h
}

/// What came of sending a request.
pub enum Reply {
    /// No reply was read; the transport may still name a status.
    Unsent(Option<u16>),
    /// A reply came with this status; its body is not read yet.
    Status(u16),
}

/// What to do next with a reply.
#[derive(PartialEq, Eq, Structural, Debug, Clone, Copy)]
pub enum Next {
    /// Read the body and decode it.
    ReadBody,
    /// The call failed with this status; the body is left unread.
    Fail(u16),
}

/// Decides on a reply: only a status of 200 has its body read; any other
/// status is the error, and a failure before any reply is the status that it
/// names, or 400.
pub fn next_step(reply: Reply) -> (r: Next)
    ensures
        r == match reply {
            Reply::Status(s) => if s == OK {
                Next::ReadBody
            } else {
                Next::Fail(s)
            },
            Reply::Unsent(Some(s)) => Next::Fail(s),
            Reply::Unsent(None) => Next::Fail(BAD_REQUEST),
        },
{
    match reply {
        Reply::Status(s) => if s == OK {
            Next::ReadBody
        } else {
            Next::Fail(s)
        },
        Reply::Unsent(Some(s)) => Next::Fail(s),
        Reply::Unsent(None) => Next::Fail(BAD_REQUEST),
    }
}

/// The result of a call whose body was read: the decoded value, or 400 where
/// the body did not have the expected shape.
pub fn decoded<T>(body: Option<T>) -> (r: Result<T, u16>)
    ensures
        r == match body {
            Some(v) => Ok::<T, u16>(v),
            None => Err::<T, u16>(BAD_REQUEST),
        },
{
    match body {
        Some(v) => Ok(v),
        None => Err(BAD_REQUEST),
    }
}

} // verus!
