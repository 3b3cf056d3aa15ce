//! The errors the services answer with, and the status and error type each
//! service reports for them.
use vstd::prelude::*;
use crate::text::{owned, concat2};

verus! {

/// An error of any service, with its message.
#[derive(Debug, Clone)]
pub enum AwsemError {
    NotImplemented(String),
    NotFound(String),
    InvalidRequest(String),
    Internal(String),
    Conflict(String),
    AlreadyExists(String),
}

/// What an error is answered with: an HTTP status, the `__type` of the body
/// and its `Message`.
pub struct ErrorResponse {
    pub status: u16,
    pub error_type: String,
    pub message: String,
}

impl AwsemError {
    /// The HTTP status of the error.
    pub open spec fn spec_status(self) -> u16 {
        match self {
            AwsemError::NotImplemented(_) => 501,
            AwsemError::NotFound(_) => 404,
            AwsemError::InvalidRequest(_) => 400,
            AwsemError::Internal(_) => 500,
            AwsemError::Conflict(_) => 409,
            AwsemError::AlreadyExists(_) => 409,
        }
    }

    /// The text of the error.
    pub open spec fn spec_message(self) -> Seq<char> {
        match self {
            AwsemError::NotImplemented(m) => "Not implemented: "@ + m@,
            AwsemError::NotFound(m) => "Resource not found: "@ + m@,
            AwsemError::InvalidRequest(m) => "Invalid request: "@ + m@,
            AwsemError::Internal(m) => "Internal error: "@ + m@,
            AwsemError::Conflict(m) => m@,
            AwsemError::AlreadyExists(m) => m@,
        }
    }

    /// The error type Cognito reports.
    pub open spec fn spec_cognito_type(self) -> Seq<char> {
        match self {
            AwsemError::NotFound(_) => "ResourceNotFoundException"@,
            AwsemError::InvalidRequest(_) => "InvalidParameterException"@,
            AwsemError::AlreadyExists(_) => "UsernameExistsException"@,
            AwsemError::Conflict(_) => "ConcurrentModificationException"@,
            _ => "InternalErrorException"@,
        }
    }

    /// The error type Secrets Manager reports.
    pub open spec fn spec_secrets_type(self) -> Seq<char> {
        match self {
            AwsemError::NotFound(_) => "ResourceNotFoundException"@,
            AwsemError::InvalidRequest(_) => "InvalidParameterException"@,
            AwsemError::AlreadyExists(_) => "ResourceExistsException"@,
            _ => "InternalServiceError"@,
        }
    }

    /// The error type EMR reports.
    pub open spec fn spec_emr_type(self) -> Seq<char> {
        match self {
            AwsemError::NotImplemented(_) => "UnknownOperationException"@,
            AwsemError::NotFound(_) => "ResourceNotFoundException"@,
            AwsemError::InvalidRequest(_) => "ValidationException"@,
            AwsemError::AlreadyExists(_) => "ValidationException"@,
            AwsemError::Conflict(_) => "ValidationException"@,
            _ => "InternalServerError"@,
        }
    }

    pub fn status_code(&self) -> (s: u16)
        ensures s == self.spec_status(),
    {
        match self {
            AwsemError::NotImplemented(_) => 501,
            AwsemError::NotFound(_) => 404,
            AwsemError::InvalidRequest(_) => 400,
            AwsemError::Internal(_) => 500,
            AwsemError::Conflict(_) => 409,
            AwsemError::AlreadyExists(_) => 409,
        }
    }

    /// The text of the error, as it is displayed.
    pub fn message(&self) -> (m: String)
        ensures m@ == self.spec_message(),
    {
        match self {
            AwsemError::NotImplemented(m) => concat2("Not implemented: ", m.as_str()),
            AwsemError::NotFound(m) => concat2("Resource not found: ", m.as_str()),
            AwsemError::InvalidRequest(m) => concat2("Invalid request: ", m.as_str()),
            AwsemError::Internal(m) => concat2("Internal error: ", m.as_str()),
            AwsemError::Conflict(m) => m.clone(),
            AwsemError::AlreadyExists(m) => m.clone(),
        }
    }

    fn respond(&self, error_type: &str) -> (r: ErrorResponse)
        ensures
            r.status == self.spec_status(),
            r.error_type@ == error_type@,
            r.message@ == self.spec_message(),
    {
        ErrorResponse { status: self.status_code(), error_type: owned(error_type), message: self.message() }
    }

    /// The answer of the services that name no error type of their own.
    pub fn to_response(&self) -> (r: ErrorResponse)
        ensures
            r.status == self.spec_status(),
            r.error_type@ == "AwsemError"@,
            r.message@ == self.spec_message(),
    {
        self.respond("AwsemError")
    }

    /// The answer of Cognito.
    pub fn cognito_response(&self) -> (r: ErrorResponse)
        ensures
            r.status == self.spec_status(),
            r.error_type@ == self.spec_cognito_type(),
            r.message@ == self.spec_message(),
    {
        let t = match self {
            AwsemError::NotFound(_) => "ResourceNotFoundException",
            AwsemError::InvalidRequest(_) => "InvalidParameterException",
            AwsemError::AlreadyExists(_) => "UsernameExistsException",
            AwsemError::Conflict(_) => "ConcurrentModificationException",
            _ => "InternalErrorException",
        };
        self.respond(t)
    }

    /// The answer of Secrets Manager.
    pub fn secrets_response(&self) -> (r: ErrorResponse)
        ensures
            r.status == self.spec_status(),
            r.error_type@ == self.spec_secrets_type(),
            r.message@ == self.spec_message(),
    {
        let t = match self {
            AwsemError::NotFound(_) => "ResourceNotFoundException",
            AwsemError::InvalidRequest(_) => "InvalidParameterException",
            AwsemError::AlreadyExists(_) => "ResourceExistsException",
            _ => "InternalServiceError",
        };
        self.respond(t)
    }

    /// The answer of EMR.
    pub fn emr_response(&self) -> (r: ErrorResponse)
        ensures
            r.status == self.spec_status(),
            r.error_type@ == self.spec_emr_type(),
            r.message@ == self.spec_message(),
    {
        let t = match self {
            AwsemError::NotImplemented(_) => "UnknownOperationException",
            AwsemError::NotFound(_) => "ResourceNotFoundException",
            AwsemError::InvalidRequest(_) => "ValidationException",
            AwsemError::AlreadyExists(_) => "ValidationException",
            AwsemError::Conflict(_) => "ValidationException",
            _ => "InternalServerError",
        };
        self.respond(t)
    }
}

/// Every error is answered with a client error (4xx) or a server error (5xx),
/// and only missing operations and internal failures are server errors.
pub proof fn lemma_status_classes(e: AwsemError)
    ensures
        400 <= e.spec_status() < 600,
        e.spec_status() >= 500 <==> (e is NotImplemented || e is Internal),
{
}

} // verus!
