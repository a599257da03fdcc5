//! What the client hands to a transport and what it takes back. The client
//! performs no input or output of its own: it describes each request, and
//! interprets whatever the transport reports for it.

use vstd::prelude::*;
use crate::error::{is_success, status_failure, Error};
use crate::json::{
    json_of, json_parse, member, optional_json, read_value, value_as_str, value_get, Json,
};

verus! {

#[derive(Debug, Clone, Copy, PartialEq, Eq, Structural)]
pub enum Method {
    Get,
    Post,
}

#[derive(Debug)]
pub struct Header {
    pub name: String,
    pub value: String,
}

impl View for Header {
    type V = (Seq<char>, Seq<char>);

    open spec fn view(&self) -> (Seq<char>, Seq<char>) {
        (self.name@, self.value@)
    }
}

/// A request as a mathematical value.
pub struct RequestView {
    pub method: Method,
    pub url: Seq<char>,
    pub headers: Seq<(Seq<char>, Seq<char>)>,
    pub body: Option<Seq<char>>,
}

/// One call of the remote service, ready for a transport to perform.
#[derive(Debug)]
pub struct Request {
    pub method: Method,
    pub url: String,
    pub headers: Vec<Header>,
    pub body: Option<String>,
}

impl View for Request {
    type V = RequestView;

    open spec fn view(&self) -> RequestView {
        RequestView {
            method: self.method,
            url: self.url@,
            headers: self.headers@.map_values(|h: Header| h@),
            body: match self.body {
                Some(text) => Some(text@),
                None => None,
            },
        }
    }
}

/// The request that reads from `url`: it carries the authorization and
/// nothing else.
pub open spec fn get_request(url: Seq<char>, authorization: Seq<char>) -> RequestView {
    RequestView {
        method: Method::Get,
        url,
        headers: seq![("Authorization"@, authorization)],
        body: None,
    }
}

/// The request that submits the JSON text `body` to `url`: it carries the
/// authorization and announces the body as JSON.
pub open spec fn post_request(
    url: Seq<char>,
    authorization: Seq<char>,
    body: Seq<char>,
) -> RequestView {
    RequestView {
        method: Method::Post,
        url,
        headers: seq![("Authorization"@, authorization), ("Content-Type"@, "application/json"@)],
        body: Some(body),
    }
}

impl Request {
    pub fn get(url: String, authorization: &str) -> (request: Request)
        ensures
            request@ == get_request(url@, authorization@),
    {
        let mut headers: Vec<Header> = Vec::new();
        headers.push(Header { name: "Authorization".to_owned(), value: authorization.to_owned() });
        let request = Request { method: Method::Get, url, headers, body: None };
        assert(request@.headers =~= seq![("Authorization"@, authorization@)]);
        request
    }

    pub fn post(url: String, authorization: &str, body: String) -> (request: Request)
        ensures
            request@ == post_request(url@, authorization@, body@),
    {
        let mut headers: Vec<Header> = Vec::new();
        headers.push(Header { name: "Authorization".to_owned(), value: authorization.to_owned() });
        headers.push(
            Header { name: "Content-Type".to_owned(), value: "application/json".to_owned() },
        );
        let request = Request { method: Method::Post, url, headers, body: Some(body) };
        assert(request@.headers =~= seq![
            ("Authorization"@, authorization@),
            ("Content-Type"@, "application/json"@),
        ]);
        request
    }
}

/// What a transport reports of a request that reached the service.
#[derive(Debug)]
pub struct Response {
    pub status: u16,
    pub body: String,
}

/// What a transport reports of one request: the response, or the text of
/// its own failure.
pub type Outcome = Result<Response, String>;

/// Whether `transport`, given a request with the view `expected`, may have
/// reported `outcome`.
pub open spec fn exchanged<F: FnOnce(Request) -> Outcome>(
    transport: F,
    expected: RequestView,
    outcome: Outcome,
) -> bool {
    exists|request: Request| request@ == expected && transport.ensures((request,), outcome)
}

/// Hands a request to the transport and takes what it reports.
pub fn exchange<F: FnOnce(Request) -> Outcome>(request: Request, transport: F) -> (outcome:
    Outcome)
    requires
        transport.requires((request,)),
    ensures
        exchanged(transport, request@, outcome),
{
    transport(request)
}

/// The message that the service puts into the body of a failure: the text
/// under `error.message`, and the empty text where the body holds none.
pub open spec fn failure_message(document: Option<Json>) -> Seq<char> {
    match document {
        Some(j) => match member(j, "error"@) {
            Some(e) => match member(e, "message"@) {
                Some(Json::Text(m)) => m,
                _ => Seq::empty(),
            },
            None => Seq::empty(),
        },
        None => Seq::empty(),
    }
}

/// What a response means once its body has been read as JSON: the document
/// of a successful response, `UnexpectedResponseShape` for a successful
/// response whose body is no document, and for every other status the
/// failure that the status and the message in the body stand for.
pub open spec fn interpretation(status: u16, document: Option<Json>) -> Result<Json, Error> {
    if is_success(status) {
        match document {
            Some(j) => Ok(j),
            None => Err(Error::UnexpectedResponseShape),
        }
    } else {
        Err(status_failure(status, failure_message(document)))
    }
}

/// What the outcome of a request means: a transport failure is passed on
/// with its text, a response is interpreted by its status and body.
pub open spec fn reply_document(outcome: Outcome) -> Result<Json, Error> {
    match outcome {
        Ok(response) => interpretation(response.status, json_parse(response.body@)),
        Err(detail) => Err(Error::ReqwestError(detail)),
    }
}

/// Whether an executable result holds what a mathematical one describes.
pub open spec fn holds(r: Result<serde_json::Value, Error>, expected: Result<Json, Error>) -> bool {
    match r {
        Ok(v) => expected == Ok::<Json, Error>(json_of(v)),
        Err(e) => expected == Err::<Json, Error>(e),
    }
}

/// What the outcome of a request means to a caller who expects a value
/// that `decode` reads from a document: the decoded value, the failure that
/// the outcome stands for, or `UnexpectedResponseShape` where the document
/// of a successful response does not decode.
pub open spec fn decoded_reply<T>(outcome: Outcome, decode: spec_fn(Json) -> Option<T>) -> Result<
    T,
    Error,
> {
    match reply_document(outcome) {
        Ok(j) => match decode(j) {
            Some(x) => Ok(x),
            None => Err(Error::UnexpectedResponseShape),
        },
        Err(e) => Err(e),
    }
}

/// Whether an optional value has the view that is expected of it.
pub open spec fn views_as<T: View>(r: Option<T>, expected: Option<T::V>) -> bool {
    match r {
        Some(x) => expected == Some(x@),
        None => expected is None,
    }
}

/// Whether a result is the expected failure, or a value with the expected
/// view.
pub open spec fn results_in<T: View>(r: Result<T, Error>, expected: Result<T::V, Error>) -> bool {
    match r {
        Ok(x) => expected == Ok::<T::V, Error>(x@),
        Err(e) => expected == Err::<T::V, Error>(e),
    }
}

/// Interprets a response whose body has been read: `document` is the value
/// read from the body, or `None` where the body is no JSON text.
pub fn interpret(status: u16, document: Option<serde_json::Value>) -> (r: Result<
    serde_json::Value,
    Error,
>)
    ensures
        holds(r, interpretation(status, optional_json(document))),
{
    let message: &str = match &document {
        Some(v) => match value_get(v, "error") {
            Some(e) => match value_get(e, "message") {
                Some(m) => match value_as_str(m) {
                    Some(text) => text,
                    None => "",
                },
                None => "",
            },
            None => "",
        },
        None => "",
    };
    proof {
        reveal_strlit("");
        assert(""@ =~= Seq::<char>::empty());
    }
    match Error::from_status(status, message) {
        Some(failure) => Err(failure),
        None => match document {
            Some(v) => Ok(v),
            None => Err(Error::UnexpectedResponseShape),
        },
    }
}

/// Interprets the outcome of a request: the document of a successful
/// response, or the failure that the outcome stands for.
pub fn read_reply(outcome: Outcome) -> (r: Result<serde_json::Value, Error>)
    ensures
        holds(r, reply_document(outcome)),
{
    match outcome {
        Ok(response) => {
            let document = read_value(response.body.as_str());
            interpret(response.status, document)
        },
        Err(detail) => Err(Error::ReqwestError(detail)),
    }
}

} // verus!
