//! The ways in which a call to one of the services fails.

use vstd::prelude::*;
use vstd::string::*;
use crate::records::SchemaFault;

verus! {

/// Why no usable response came back.
#[derive(Debug, PartialEq, Eq)]
pub enum RequestFailure {
    /// The request could not be sent, or no response arrived; the text is
    /// the client's diagnostic.
    Network(String),
    /// The service answered with a status other than 200.
    Status(u16),
}

/// What was looked for in a response.
#[derive(Clone, Copy, Debug, PartialEq, Eq, Structural)]
pub enum Payload {
    /// The text of the first candidate of a generated reply.
    Dictionary,
    /// The encoded audio of a synthesis.
    Audio,
}

/// Why a reply is not the record that was asked for.
#[derive(Debug, PartialEq, Eq)]
pub enum MismatchCause {
    /// The reply is no JSON text; the text is the parser's diagnostic.
    Syntax(String),
    /// The reply is JSON of another shape.
    Shape(SchemaFault),
}

/// A failed call. Every failure ends the call that met it.
#[derive(Debug, PartialEq, Eq)]
pub enum BridgeError {
    /// The service was not reached, or did not answer with status 200.
    RequestFailed(RequestFailure),
    /// The service answered with status 200 and a body that is no JSON; the
    /// text is the parser's diagnostic.
    MalformedResponse(String),
    /// The response does not hold what was looked for.
    FieldNotFound(Payload),
    /// The reply, fences removed, is not the record that was asked for.
    SchemaMismatch { cause: MismatchCause, reply: String },
    /// The audio is not valid base64; the text is the decoder's diagnostic.
    DecodeError(String),
}

pub enum RequestFailureView {
    Network(Seq<char>),
    Status(u16),
}

pub enum MismatchCauseView {
    Syntax(Seq<char>),
    Shape(SchemaFault),
}

pub enum BridgeErrorView {
    RequestFailed(RequestFailureView),
    MalformedResponse(Seq<char>),
    FieldNotFound(Payload),
    SchemaMismatch { cause: MismatchCauseView, reply: Seq<char> },
    DecodeError(Seq<char>),
}

impl View for RequestFailure {
    type V = RequestFailureView;

    open spec fn view(&self) -> RequestFailureView {
        match self {
            RequestFailure::Network(detail) => RequestFailureView::Network(detail@),
            RequestFailure::Status(code) => RequestFailureView::Status(*code),
        }
    }
}

impl View for MismatchCause {
    type V = MismatchCauseView;

    open spec fn view(&self) -> MismatchCauseView {
        match self {
            MismatchCause::Syntax(detail) => MismatchCauseView::Syntax(detail@),
            MismatchCause::Shape(fault) => MismatchCauseView::Shape(*fault),
        }
    }
}

impl View for BridgeError {
    type V = BridgeErrorView;

    open spec fn view(&self) -> BridgeErrorView {
        match self {
            BridgeError::RequestFailed(failure) => BridgeErrorView::RequestFailed(failure@),
            BridgeError::MalformedResponse(detail) => BridgeErrorView::MalformedResponse(detail@),
            BridgeError::FieldNotFound(payload) => BridgeErrorView::FieldNotFound(*payload),
            BridgeError::SchemaMismatch { cause, reply } => BridgeErrorView::SchemaMismatch {
                cause: cause@,
                reply: reply@,
            },
            BridgeError::DecodeError(detail) => BridgeErrorView::DecodeError(detail@),
        }
    }
}

/// How `reqwest::StatusCode` prints a status.
pub uninterp spec fn status_line(code: u16) -> Seq<char>;

/// `reqwest::StatusCode::from_u16`, and the rendering of what it returns:
/// of the status, or of the refusal of a number that is none. The text
/// depends on the number alone.
#[verifier::external_body]
fn status_text(code: u16) -> (r: String)
    ensures
        r@ == status_line(code),
{
    match reqwest::StatusCode::from_u16(code) {
        Ok(status) => status.to_string(),
        Err(refusal) => refusal.to_string(),
    }
}

/// What is said of a fault of shape.
pub open spec fn fault_text(fault: SchemaFault) -> Seq<char> {
    match fault {
        SchemaFault::NotAnObject => "invalid type: expected an object"@,
        SchemaFault::Missing(field) => "missing field `"@ + field.name() + "`"@,
        SchemaFault::Invalid(field) => "invalid type for field `"@ + field.name() + "`"@,
    }
}

/// What is said of the cause of a mismatch.
pub open spec fn cause_text(cause: MismatchCauseView) -> Seq<char> {
    match cause {
        MismatchCauseView::Syntax(detail) => detail,
        MismatchCauseView::Shape(fault) => fault_text(fault),
    }
}

/// The message that describes a failure to the caller.
pub open spec fn message_of(error: BridgeErrorView) -> Seq<char> {
    match error {
        BridgeErrorView::RequestFailed(RequestFailureView::Network(detail)) => "request error: "@
            + detail,
        BridgeErrorView::RequestFailed(RequestFailureView::Status(code)) => "request error: "@
            + status_line(code),
        BridgeErrorView::MalformedResponse(detail) => "json error: "@ + detail,
        BridgeErrorView::FieldNotFound(Payload::Dictionary) => "json error: dictionary not found"@,
        BridgeErrorView::FieldNotFound(Payload::Audio) =>
            "json error: synthesized audio not found"@,
        BridgeErrorView::SchemaMismatch { cause, reply } => "serde error: "@ + cause_text(cause)
            + " Gemini Reply: "@ + reply,
        BridgeErrorView::DecodeError(detail) => detail,
    }
}

/// Describes a fault of shape.
pub fn describe_fault(fault: SchemaFault) -> (r: String)
    ensures
        r@ == fault_text(fault),
{
    match fault {
        SchemaFault::NotAnObject => String::from_str("invalid type: expected an object"),
        SchemaFault::Missing(field) => {
            let mut text = String::from_str("missing field `");
            text.append(field.key());
            text.append("`");
            text
        },
        SchemaFault::Invalid(field) => {
            let mut text = String::from_str("invalid type for field `");
            text.append(field.key());
            text.append("`");
            text
        },
    }
}

impl BridgeError {
    /// The message that describes this failure to the caller.
    pub fn message(&self) -> (r: String)
        ensures
            r@ == message_of(self@),
    {
        match self {
            BridgeError::RequestFailed(RequestFailure::Network(detail)) => {
                let mut text = String::from_str("request error: ");
                text.append(detail.as_str());
                text
            },
            BridgeError::RequestFailed(RequestFailure::Status(code)) => {
                let mut text = String::from_str("request error: ");
                let line = status_text(*code);
                text.append(line.as_str());
                text
            },
            BridgeError::MalformedResponse(detail) => {
                let mut text = String::from_str("json error: ");
                text.append(detail.as_str());
                text
            },
            BridgeError::FieldNotFound(Payload::Dictionary) => String::from_str(
                "json error: dictionary not found",
            ),
            BridgeError::FieldNotFound(Payload::Audio) => String::from_str(
                "json error: synthesized audio not found",
            ),
            BridgeError::SchemaMismatch { cause, reply } => {
                let mut text = String::from_str("serde error: ");
                match cause {
                    MismatchCause::Syntax(detail) => {
                        text.append(detail.as_str());
                    },
                    MismatchCause::Shape(fault) => {
                        let detail = describe_fault(*fault);
                        text.append(detail.as_str());
                    },
                }
                text.append(" Gemini Reply: ");
                text.append(reply.as_str());
                text
            },
            BridgeError::DecodeError(detail) => detail.clone(),
        }
    }
}

} // verus!
