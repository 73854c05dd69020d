//! The one exchange with a service: a JSON body is posted, and what comes
//! back is either a JSON value or a failure. Sending is the caller's part;
//! what is sent, and what the outcome means, is decided here.

use vstd::prelude::*;
use crate::error::{BridgeError, BridgeErrorView, RequestFailure, RequestFailureView};
use crate::json::{json_of_bytes, parse_bytes, Json, JsonModel};

verus! {

/// A header that is set on a request beside those of the client.
#[derive(Debug, PartialEq, Eq)]
pub struct Header {
    pub name: String,
    pub value: String,
}

/// A request: the body is posted to the address as JSON, once, with the
/// headers set on it in their order.
#[derive(Debug, PartialEq, Eq)]
pub struct HttpRequest {
    pub url: String,
    pub body: Json,
    pub headers: Vec<Header>,
}

/// How the one attempt to send a request has ended.
#[derive(Debug, PartialEq, Eq)]
pub enum HttpOutcome {
    /// Nothing came back; the text is the client's diagnostic.
    SendFailed(String),
    /// A response came back, with this status and this body. Where the
    /// status is not the one that asks for the body, the body may be empty.
    Response { status: u16, body: Vec<u8> },
    /// A response came back with this status, and its body could not be
    /// read; the text is the client's diagnostic.
    Unreadable { status: u16, detail: String },
}

pub struct HeaderView {
    pub name: Seq<char>,
    pub value: Seq<char>,
}

pub struct HttpRequestView {
    pub url: Seq<char>,
    pub body: JsonModel,
    pub headers: Seq<HeaderView>,
}

pub enum HttpOutcomeView {
    SendFailed(Seq<char>),
    Response { status: u16, body: Seq<u8> },
    Unreadable { status: u16, detail: Seq<char> },
}

impl HttpRequestView {
    /// Whether no two headers of the request carry the same name.
    pub open spec fn well_formed(self) -> bool {
        forall|i: int, j: int|
            0 <= i < j < self.headers.len() ==> self.headers[i].name != self.headers[j].name
    }
}

impl View for Header {
    type V = HeaderView;

    open spec fn view(&self) -> HeaderView {
        HeaderView { name: self.name@, value: self.value@ }
    }
}

impl View for HttpRequest {
    type V = HttpRequestView;

    open spec fn view(&self) -> HttpRequestView {
        HttpRequestView {
            url: self.url@,
            body: self.body@,
            headers: Seq::new(self.headers@.len(), |i: int| self.headers@[i]@),
        }
    }
}

impl View for HttpOutcome {
    type V = HttpOutcomeView;

    open spec fn view(&self) -> HttpOutcomeView {
        match self {
            HttpOutcome::SendFailed(detail) => HttpOutcomeView::SendFailed(detail@),
            HttpOutcome::Response { status, body } => HttpOutcomeView::Response {
                status: *status,
                body: body@,
            },
            HttpOutcome::Unreadable { status, detail } => HttpOutcomeView::Unreadable {
                status: *status,
                detail: detail@,
            },
        }
    }
}

/// The status that alone counts as success.
pub const STATUS_OK: u16 = 200;

/// The model of what a call has returned.
pub open spec fn json_outcome(r: Result<Json, BridgeError>) -> Result<JsonModel, BridgeErrorView> {
    match r {
        Ok(j) => Ok(j@),
        Err(error) => Err(error@),
    }
}

/// What a parsed body means: the value, or a malformed response.
pub open spec fn body_meaning(parsed: Result<JsonModel, Seq<char>>) -> Result<
    JsonModel,
    BridgeErrorView,
> {
    match parsed {
        Ok(j) => Ok(j),
        Err(detail) => Err(BridgeErrorView::MalformedResponse(detail)),
    }
}

/// What an outcome means. A failure to send is a failed request. So is
/// every status but 200, whatever the body holds. With status 200 the body
/// is read as JSON; one that could not be read, or is no JSON, is a
/// malformed response.
pub open spec fn outcome_meaning(outcome: HttpOutcomeView) -> Result<JsonModel, BridgeErrorView> {
    match outcome {
        HttpOutcomeView::SendFailed(detail) => Err(
            BridgeErrorView::RequestFailed(RequestFailureView::Network(detail)),
        ),
        HttpOutcomeView::Response { status, body } => if status != STATUS_OK {
            Err(BridgeErrorView::RequestFailed(RequestFailureView::Status(status)))
        } else {
            body_meaning(json_of_bytes(body))
        },
        HttpOutcomeView::Unreadable { status, detail } => if status != STATUS_OK {
            Err(BridgeErrorView::RequestFailed(RequestFailureView::Status(status)))
        } else {
            Err(BridgeErrorView::MalformedResponse(detail))
        },
    }
}

/// Whether the body of a response with this status is asked for.
pub fn wants_body(status: u16) -> (r: bool)
    ensures
        r == (status == STATUS_OK),
{
    status == STATUS_OK
}

/// Settles what the body of a response with status 200 has been parsed to.
pub fn read_body(parsed: Result<Json, String>) -> (r: Result<Json, BridgeError>)
    ensures
        json_outcome(r) == body_meaning(crate::json::parsed_model(parsed)),
{
    match parsed {
        Ok(j) => Ok(j),
        Err(detail) => Err(BridgeError::MalformedResponse(detail)),
    }
}

/// Settles how an exchange has ended: with the JSON value of the response,
/// or with the failure.
pub fn read_response(outcome: &HttpOutcome) -> (r: Result<Json, BridgeError>)
    ensures
        json_outcome(r) == outcome_meaning(outcome@),
{
    match outcome {
        HttpOutcome::SendFailed(detail) => Err(
            BridgeError::RequestFailed(RequestFailure::Network(detail.clone())),
        ),
        HttpOutcome::Response { status, body } => {
            if *status != STATUS_OK {
                Err(BridgeError::RequestFailed(RequestFailure::Status(*status)))
            } else {
                read_body(parse_bytes(body.as_slice()))
            }
        },
        HttpOutcome::Unreadable { status, detail } => {
            if *status != STATUS_OK {
                Err(BridgeError::RequestFailed(RequestFailure::Status(*status)))
            } else {
                Err(BridgeError::MalformedResponse(detail.clone()))
            }
        },
    }
}

/// A status other than 200 is a failed request with that status, whatever
/// the body holds.
pub proof fn lemma_status_decides(status: u16, body: Seq<u8>, detail: Seq<char>)
    requires
        status != STATUS_OK,
    ensures
        outcome_meaning(HttpOutcomeView::Response { status, body }) == Err::<
            JsonModel,
            BridgeErrorView,
        >(BridgeErrorView::RequestFailed(RequestFailureView::Status(status))),
        outcome_meaning(HttpOutcomeView::Unreadable { status, detail }) == Err::<
            JsonModel,
            BridgeErrorView,
        >(BridgeErrorView::RequestFailed(RequestFailureView::Status(status))),
{
}

/// With status 200, a body that is JSON is returned as the value that it
/// denotes, and any other body is a malformed response, never a failed
/// request.
pub proof fn lemma_ok_reads_body(body: Seq<u8>)
    ensures
        json_of_bytes(body) is Ok ==> outcome_meaning(
            HttpOutcomeView::Response { status: STATUS_OK, body },
        ) == Ok::<JsonModel, BridgeErrorView>(json_of_bytes(body)->Ok_0),
        json_of_bytes(body) is Err ==> outcome_meaning(
            HttpOutcomeView::Response { status: STATUS_OK, body },
        ) == Err::<JsonModel, BridgeErrorView>(
            BridgeErrorView::MalformedResponse(json_of_bytes(body)->Err_0),
        ),
{
}

} // verus!
