//! The replies the service gives: a status and a body, which the HTTP layer
//! writes out as JSON.

use crate::model::{GeneratedValueModelResponse, ShownValue};
use vstd::prelude::*;

verus! {

/// The HTTP status of a reply.
#[derive(Debug, Clone, Copy, PartialEq, Eq, Structural)]
pub enum Status {
    Success,
    NoContent,
    BadRequest,
    NotFound,
    InternalServerError,
}

/// The numeric HTTP status code of each status.
pub open spec fn status_code(status: Status) -> u16 {
    match status {
        Status::Success => 200,
        Status::NoContent => 204,
        Status::BadRequest => 400,
        Status::NotFound => 404,
        Status::InternalServerError => 500,
    }
}

impl Status {
    /// The numeric HTTP status code.
    pub fn code(&self) -> (code: u16)
        ensures
            code == status_code(*self),
    {
        match self {
            Status::Success => 200,
            Status::NoContent => 204,
            Status::BadRequest => 400,
            Status::NotFound => 404,
            Status::InternalServerError => 500,
        }
    }
}

/// The `"status"` member of a reply body.
#[derive(Debug, Clone, Copy, PartialEq, Eq, Structural)]
pub enum Outcome {
    Success,
    Fail,
    Error,
}

/// The text of each outcome, as it appears in a body.
pub open spec fn outcome_text(outcome: Outcome) -> Seq<char> {
    match outcome {
        Outcome::Success => "success"@,
        Outcome::Fail => "fail"@,
        Outcome::Error => "error"@,
    }
}

impl Outcome {
    /// The text of the outcome, as it appears in a body.
    pub fn text(&self) -> (text: &'static str)
        ensures
            text@ == outcome_text(*self),
    {
        match self {
            Outcome::Success => "success",
            Outcome::Fail => "fail",
            Outcome::Error => "error",
        }
    }
}

/// The key under which a body's `"data"` member holds a record.
#[derive(Debug, Clone, Copy, PartialEq, Eq, Structural)]
pub enum RecordKey {
    /// `"generated_value"`, used when a value is created or read.
    GeneratedValue,
    /// `"Generated Value"`, used when a value is changed.
    ChangedValue,
}

/// The text of each record key.
pub open spec fn record_key_text(key: RecordKey) -> Seq<char> {
    match key {
        RecordKey::GeneratedValue => "generated_value"@,
        RecordKey::ChangedValue => "Generated Value"@,
    }
}

impl RecordKey {
    /// The text of the key.
    pub fn text(&self) -> (text: &'static str)
        ensures
            text@ == record_key_text(*self),
    {
        match self {
            RecordKey::GeneratedValue => "generated_value",
            RecordKey::ChangedValue => "Generated Value",
        }
    }
}

/// The body of a reply.
#[derive(Debug, Clone)]
pub enum Body {
    /// No body.
    Empty,
    /// `{"status": outcome}`.
    Outcome { outcome: Outcome },
    /// `{"status": outcome, "message": message}`.
    Message { outcome: Outcome, message: String },
    /// `{"status": "success", "output values": [..], "repeted values": [..]}`.
    RunReport { output_values: Vec<i8>, repeated_values: Vec<i8> },
    /// `{"status": "success", "data": {key: record}}`.
    Record { key: RecordKey, record: GeneratedValueModelResponse },
    /// `{"status": "success", "results": results, "generated_values": [..]}`.
    RecordList { results: usize, records: Vec<GeneratedValueModelResponse> },
    /// `{"value": value}`.
    Value { value: i64 },
}

/// The body of a reply, as the specifications see it.
pub enum BodyView {
    Empty,
    Outcome { outcome: Outcome },
    Message { outcome: Outcome, message: Seq<char> },
    RunReport { output_values: Seq<i8>, repeated_values: Seq<i8> },
    Record { key: RecordKey, record: ShownValue },
    RecordList { results: nat, records: Seq<ShownValue> },
    Value { value: int },
}

impl View for Body {
    type V = BodyView;

    open spec fn view(&self) -> BodyView {
        match self {
            Body::Empty => BodyView::Empty,
            Body::Outcome { outcome } => BodyView::Outcome { outcome: *outcome },
            Body::Message { outcome, message } => BodyView::Message {
                outcome: *outcome,
                message: message@,
            },
            Body::RunReport { output_values, repeated_values } => BodyView::RunReport {
                output_values: output_values@,
                repeated_values: repeated_values@,
            },
            Body::Record { key, record } => BodyView::Record { key: *key, record: record@ },
            Body::RecordList { results, records } => BodyView::RecordList {
                results: *results as nat,
                records: records@.map_values(|r: GeneratedValueModelResponse| r@),
            },
            Body::Value { value } => BodyView::Value { value: *value as int },
        }
    }
}

/// A reply: its status and its body.
#[derive(Debug, Clone)]
pub struct Reply {
    pub status: Status,
    pub body: Body,
}

/// A reply, as the specifications see it.
pub struct ReplyView {
    pub status: Status,
    pub body: BodyView,
}

impl View for Reply {
    type V = ReplyView;

    open spec fn view(&self) -> ReplyView {
        ReplyView { status: self.status, body: self.body@ }
    }
}

/// A reply whose body is a status text and a message.
pub open spec fn message_reply(status: Status, outcome: Outcome, message: Seq<char>) -> ReplyView {
    ReplyView { status, body: BodyView::Message { outcome, message } }
}

/// The status of a reply agrees with its body: an empty body goes with
/// "no content", a `"fail"` with a client error (400 or 404), an `"error"`
/// with a server error (500), and every other body with 200.
pub open spec fn is_consistent(reply: ReplyView) -> bool {
    match reply.body {
        BodyView::Empty => reply.status == Status::NoContent,
        BodyView::Outcome { outcome } => outcome == Outcome::Success && reply.status == Status::Success,
        BodyView::Message { outcome, .. } => match outcome {
            Outcome::Success => reply.status == Status::Success,
            Outcome::Fail => reply.status == Status::BadRequest || reply.status == Status::NotFound,
            Outcome::Error => reply.status == Status::InternalServerError,
        },
        _ => reply.status == Status::Success,
    }
}

/// A consistent reply that is not a success has a client or server error
/// status (400 and up).
pub proof fn lemma_unsuccessful_reply_has_error_status(reply: ReplyView)
    requires
        is_consistent(reply),
        reply.body matches BodyView::Message { outcome, .. } && outcome != Outcome::Success,
    ensures
        status_code(reply.status) >= 400,
{
}

} // verus!
