use vstd::prelude::*;
use vstd::string::StringExecFns;

verus! {

/// A success envelope: a fixed marker beside the payload.
pub struct CustomResponse<T> {
    pub status: &'static str,
    pub data: T,
}

impl<T> CustomResponse<T> {
    /// Wrap a payload in the success envelope.
    pub fn new(data: T) -> (r: Self)
        ensures
            r.status@ == "ok"@,
            r.data == data,
    {
        CustomResponse { status: "ok", data }
    }
}

/// The payload for success envelopes that carry no data.
pub struct CustomResponseEmptyData {}

/// How an error is classified at the HTTP boundary.
#[derive(Clone, Copy, PartialEq, Eq, Structural, Debug)]
pub enum ErrorStatus {
    BadRequest,
    Unauthorized,
    Forbidden,
    NotFound,
    InternalServerError,
}

impl ErrorStatus {
    /// The classification's name, as it appears in a response body.
    pub open spec fn spec_text(self) -> Seq<char> {
        match self {
            ErrorStatus::BadRequest => "BadRequest"@,
            ErrorStatus::Unauthorized => "Unauthorized"@,
            ErrorStatus::Forbidden => "Forbidden"@,
            ErrorStatus::NotFound => "NotFound"@,
            ErrorStatus::InternalServerError => "InternalServerError"@,
        }
    }

    /// The classification's name, for response bodies and logs.
    pub fn text(&self) -> (r: &'static str)
        ensures
            r@ == self.spec_text(),
    {
        match self {
            ErrorStatus::BadRequest => "BadRequest",
            ErrorStatus::Unauthorized => "Unauthorized",
            ErrorStatus::Forbidden => "Forbidden",
            ErrorStatus::NotFound => "NotFound",
            ErrorStatus::InternalServerError => "InternalServerError",
        }
    }

    /// The numeric HTTP status code matching the classification.
    pub open spec fn spec_code(self) -> u16 {
        match self {
            ErrorStatus::BadRequest => 400,
            ErrorStatus::Unauthorized => 401,
            ErrorStatus::Forbidden => 403,
            ErrorStatus::NotFound => 404,
            ErrorStatus::InternalServerError => 500,
        }
    }
}

/// A classified error as it surfaces to the client: a status tier and a
/// message; nothing is swallowed and nothing is retried.
#[derive(Clone, Debug)]
pub struct ErrorResponse {
    pub status: ErrorStatus,
    pub message: String,
}

impl ErrorResponse {
    /// The numeric HTTP status code this error is reported under.
    pub fn status_code(&self) -> (code: u16)
        ensures
            code == self.status.spec_code(),
    {
        match self.status {
            ErrorStatus::BadRequest => 400,
            ErrorStatus::Unauthorized => 401,
            ErrorStatus::Forbidden => 403,
            ErrorStatus::NotFound => 404,
            ErrorStatus::InternalServerError => 500,
        }
    }

    /// One line naming the status and the message, for logs and error text.
    pub fn to_text(&self) -> (r: String)
        ensures
            r@ == "status: "@ + self.status.spec_text() + ", message:"@ + self.message@,
    {
        let mut line = "status: ".to_owned();
        line.append(self.status.text());
        line.append(", message:");
        line.append(self.message.as_str());
        line
    }
}

} // verus!
