//! The error kinds that the backend reports, and the body it reports them in.

use vstd::prelude::*;

verus! {

/// Every failure that a request can end in.
#[derive(Debug)]
pub enum HttpError {
    InputValidationError,
    Unauthorized,
    InvalidSwaggerAPIKey,
    InternalServerError { cause: String },
    UserNotFound,
    PostNotFound,
    CategoryNotFound,
    IncorrectPassword,
    NoData,
    Forbidden,
    InvalidAuthenticationCredentials,
}

/// The body of an error response: the status, the kind of error and a sentence for the reader.
#[derive(Debug)]
pub struct FormattedErrorResponse {
    pub status_code: u16,
    pub error: String,
    pub message: String,
}

/// The kinds of error, without the words that an internal error carries.
#[derive(Clone, Copy, Debug, PartialEq, Eq, Structural)]
pub enum ErrorKind {
    InputValidationError,
    Unauthorized,
    InvalidSwaggerAPIKey,
    InternalServerError,
    UserNotFound,
    PostNotFound,
    CategoryNotFound,
    IncorrectPassword,
    NoData,
    Forbidden,
    InvalidAuthenticationCredentials,
}

impl HttpError {
    /// The kind of this error.
    pub open spec fn spec_kind(&self) -> ErrorKind {
        match self {
            HttpError::InputValidationError => ErrorKind::InputValidationError,
            HttpError::Unauthorized => ErrorKind::Unauthorized,
            HttpError::InvalidSwaggerAPIKey => ErrorKind::InvalidSwaggerAPIKey,
            HttpError::InternalServerError { .. } => ErrorKind::InternalServerError,
            HttpError::UserNotFound => ErrorKind::UserNotFound,
            HttpError::PostNotFound => ErrorKind::PostNotFound,
            HttpError::CategoryNotFound => ErrorKind::CategoryNotFound,
            HttpError::IncorrectPassword => ErrorKind::IncorrectPassword,
            HttpError::NoData => ErrorKind::NoData,
            HttpError::Forbidden => ErrorKind::Forbidden,
            HttpError::InvalidAuthenticationCredentials => {
                ErrorKind::InvalidAuthenticationCredentials
            },
        }
    }

    /// The kind of this error.
    #[verifier::when_used_as_spec(spec_kind)]
    pub fn kind(&self) -> (r: ErrorKind)
        ensures
            r == self.spec_kind(),
    {
        match self {
            HttpError::InputValidationError => ErrorKind::InputValidationError,
            HttpError::Unauthorized => ErrorKind::Unauthorized,
            HttpError::InvalidSwaggerAPIKey => ErrorKind::InvalidSwaggerAPIKey,
            HttpError::InternalServerError { .. } => ErrorKind::InternalServerError,
            HttpError::UserNotFound => ErrorKind::UserNotFound,
            HttpError::PostNotFound => ErrorKind::PostNotFound,
            HttpError::CategoryNotFound => ErrorKind::CategoryNotFound,
            HttpError::IncorrectPassword => ErrorKind::IncorrectPassword,
            HttpError::NoData => ErrorKind::NoData,
            HttpError::Forbidden => ErrorKind::Forbidden,
            HttpError::InvalidAuthenticationCredentials => {
                ErrorKind::InvalidAuthenticationCredentials
            },
        }
    }

    /// The short name of each kind of error.
    pub open spec fn spec_name(self) -> Seq<char> {
        match self {
            HttpError::InputValidationError => "input validation error"@,
            HttpError::Unauthorized => "unauthorized"@,
            HttpError::InvalidSwaggerAPIKey => "invalid swagger api key"@,
            HttpError::InternalServerError { .. } => "internal server error"@,
            HttpError::UserNotFound => "user not found"@,
            HttpError::PostNotFound => "post not found"@,
            HttpError::CategoryNotFound => "category not found"@,
            HttpError::IncorrectPassword => "incorrect password"@,
            HttpError::NoData => "no data"@,
            HttpError::Forbidden => "forbidden"@,
            HttpError::InvalidAuthenticationCredentials => "invalid authentication credentials"@,
        }
    }

    /// The short name of this kind of error, as the response body shows it.
    pub fn name(&self) -> (r: String)
        ensures
            r@ == self.spec_name(),
    {
        match self {
            HttpError::InputValidationError => "input validation error".to_string(),
            HttpError::Unauthorized => "unauthorized".to_string(),
            HttpError::InvalidSwaggerAPIKey => "invalid swagger api key".to_string(),
            HttpError::InternalServerError { .. } => "internal server error".to_string(),
            HttpError::UserNotFound => "user not found".to_string(),
            HttpError::PostNotFound => "post not found".to_string(),
            HttpError::CategoryNotFound => "category not found".to_string(),
            HttpError::IncorrectPassword => "incorrect password".to_string(),
            HttpError::NoData => "no data".to_string(),
            HttpError::Forbidden => "forbidden".to_string(),
            HttpError::InvalidAuthenticationCredentials => {
                "invalid authentication credentials".to_string()
            },
        }
    }

    /// The sentence that tells the reader what went wrong. An internal error carries its own.
    pub open spec fn spec_message(self) -> Seq<char> {
        match self {
            HttpError::InputValidationError => "input field validation failed"@,
            HttpError::Unauthorized => "session timed out"@,
            HttpError::InvalidSwaggerAPIKey => "invalid swagger api key"@,
            HttpError::InternalServerError { cause } => cause@,
            HttpError::UserNotFound => "user not found"@,
            HttpError::PostNotFound => "post not found"@,
            HttpError::CategoryNotFound => "category not found"@,
            HttpError::IncorrectPassword => "password is incorrect"@,
            HttpError::NoData => "incoming data is empty"@,
            HttpError::Forbidden => "you do not have to role to access this content"@,
            HttpError::InvalidAuthenticationCredentials => "invalid authentication credentials"@,
        }
    }

    /// The HTTP status that each kind of error is answered with.
    pub open spec fn spec_status_code(self) -> u16 {
        match self {
            HttpError::InputValidationError => 400,
            HttpError::Unauthorized => 401,
            HttpError::InvalidSwaggerAPIKey => 401,
            HttpError::InternalServerError { .. } => 500,
            HttpError::UserNotFound => 404,
            HttpError::PostNotFound => 404,
            HttpError::CategoryNotFound => 404,
            HttpError::IncorrectPassword => 400,
            HttpError::NoData => 400,
            HttpError::Forbidden => 403,
            HttpError::InvalidAuthenticationCredentials => 400,
        }
    }

    /// The text that stands for this error where it is shown.
    pub fn message(&self) -> (r: String)
        ensures
            r@ == self.spec_message(),
    {
        match self {
            HttpError::InputValidationError => "input field validation failed".to_string(),
            HttpError::Unauthorized => "session timed out".to_string(),
            HttpError::InvalidSwaggerAPIKey => "invalid swagger api key".to_string(),
            HttpError::InternalServerError { cause } => cause.clone(),
            HttpError::UserNotFound => "user not found".to_string(),
            HttpError::PostNotFound => "post not found".to_string(),
            HttpError::CategoryNotFound => "category not found".to_string(),
            HttpError::IncorrectPassword => "password is incorrect".to_string(),
            HttpError::NoData => "incoming data is empty".to_string(),
            HttpError::Forbidden => "you do not have to role to access this content".to_string(),
            HttpError::InvalidAuthenticationCredentials => {
                "invalid authentication credentials".to_string()
            },
        }
    }

    pub fn match_status_code(&self) -> (r: u16)
        ensures
            r == self.spec_status_code(),
    {
        match self {
            HttpError::InputValidationError => 400,
            HttpError::Unauthorized => 401,
            HttpError::InvalidSwaggerAPIKey => 401,
            HttpError::InternalServerError { .. } => 500,
            HttpError::UserNotFound => 404,
            HttpError::PostNotFound => 404,
            HttpError::CategoryNotFound => 404,
            HttpError::IncorrectPassword => 400,
            HttpError::NoData => 400,
            HttpError::Forbidden => 403,
            HttpError::InvalidAuthenticationCredentials => 400,
        }
    }

    /// The response body for this error: its status, its name and its message.
    pub fn get_error_struct(self) -> (r: FormattedErrorResponse)
        ensures
            r.status_code == self.spec_status_code(),
            r.error@ == self.spec_name(),
            r.message@ == self.spec_message(),
    {
        FormattedErrorResponse {
            status_code: self.match_status_code(),
            error: self.name(),
            message: self.message(),
        }
    }

    /// An internal error with the given cause.
    pub fn internal(cause: &str) -> (r: HttpError)
        ensures
            r matches HttpError::InternalServerError { cause: c } && c@ == cause@,
            r.kind() == ErrorKind::InternalServerError,
    {
        HttpError::InternalServerError { cause: cause.to_owned() }
    }
}

} // verus!
