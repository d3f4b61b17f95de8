//! Failure categories of the service and how they are reported to callers.

use vstd::prelude::*;
use vstd::string::*;

verus! {

/// A failure raised while a request is processed.
#[derive(Debug)]
pub enum AppError {
    /// The caller's input was rejected.
    ValidationError { message: String },
    /// Something failed on the server side.
    InternalError { message: String },
    /// Configuration or startup failed.
    ConfigurationError { message: String },
    /// The requested resource does not exist.
    NotFoundError { message: String },
    /// The service is rejecting work for now.
    UnavailableError { message: String },
}

/// The category of a status reported to a remote caller.
#[derive(Debug, Clone, Copy, PartialEq, Eq, Structural)]
pub enum Code {
    /// The caller sent input that can never be accepted.
    InvalidArgument,
    /// The server failed for a reason of its own.
    Internal,
    /// The requested resource does not exist.
    NotFound,
    /// The server is not taking work for now.
    Unavailable,
}

/// What a remote caller is told about a failed call: a category that a
/// machine can test and a message for a person.
#[derive(Debug)]
pub struct Status {
    code: Code,
    message: String,
}

/// The text that separates a context from the failure it is put in front of.
pub open spec fn context_separator() -> Seq<char> {
    ": "@
}

impl AppError {
    /// The text carried by the error, whatever its category.
    pub open spec fn message_text(self) -> Seq<char> {
        match self {
            AppError::ValidationError { message } => message@,
            AppError::InternalError { message } => message@,
            AppError::ConfigurationError { message } => message@,
            AppError::NotFoundError { message } => message@,
            AppError::UnavailableError { message } => message@,
        }
    }

    /// The words that `to_string` puts in front of the message.
    pub open spec fn label(self) -> Seq<char> {
        match self {
            AppError::ValidationError { .. } => "Invalid input: "@,
            AppError::InternalError { .. } => "Internal service error: "@,
            AppError::ConfigurationError { .. } => "Configuration error: "@,
            AppError::NotFoundError { .. } => "Resource not found: "@,
            AppError::UnavailableError { .. } => "Service unavailable: "@,
        }
    }

    /// The full text of the error: its label, then its message.
    pub open spec fn rendered(self) -> Seq<char> {
        self.label() + self.message_text()
    }

    /// The category under which the error is reported to a remote caller.
    pub open spec fn status_code(self) -> Code {
        match self {
            AppError::ValidationError { .. } => Code::InvalidArgument,
            AppError::InternalError { .. } => Code::Internal,
            AppError::ConfigurationError { .. } => Code::Internal,
            AppError::NotFoundError { .. } => Code::NotFound,
            AppError::UnavailableError { .. } => Code::Unavailable,
        }
    }

    /// The message under which the error is reported to a remote caller.
    pub open spec fn status_message(self) -> Seq<char> {
        match self {
            AppError::ConfigurationError { message } => "Service configuration error: "@
                + message@,
            _ => self.message_text(),
        }
    }

    /// A validation error with the given message.
    pub fn validation(message: &str) -> (e: AppError)
        ensures
            e is ValidationError,
            e.message_text() == message@,
    {
        AppError::ValidationError { message: String::from_str(message) }
    }

    /// An internal error with the given message.
    pub fn internal(message: &str) -> (e: AppError)
        ensures
            e is InternalError,
            e.message_text() == message@,
    {
        AppError::InternalError { message: String::from_str(message) }
    }

    /// A configuration error with the given message.
    pub fn configuration(message: &str) -> (e: AppError)
        ensures
            e is ConfigurationError,
            e.message_text() == message@,
    {
        AppError::ConfigurationError { message: String::from_str(message) }
    }

    /// A not-found error with the given message.
    pub fn not_found(message: &str) -> (e: AppError)
        ensures
            e is NotFoundError,
            e.message_text() == message@,
    {
        AppError::NotFoundError { message: String::from_str(message) }
    }

    /// An unavailable error with the given message.
    pub fn unavailable(message: &str) -> (e: AppError)
        ensures
            e is UnavailableError,
            e.message_text() == message@,
    {
        AppError::UnavailableError { message: String::from_str(message) }
    }

    /// The message carried by the error.
    pub fn message(&self) -> (m: &str)
        ensures
            m@ == self.message_text(),
    {
        match self {
            AppError::ValidationError { message } => message.as_str(),
            AppError::InternalError { message } => message.as_str(),
            AppError::ConfigurationError { message } => message.as_str(),
            AppError::NotFoundError { message } => message.as_str(),
            AppError::UnavailableError { message } => message.as_str(),
        }
    }

    /// The error as one line of text: the label of its category, then its
    /// message.
    pub fn to_string(&self) -> (s: String)
        ensures
            s@ == self.rendered(),
    {
        let label = match self {
            AppError::ValidationError { .. } => "Invalid input: ",
            AppError::InternalError { .. } => "Internal service error: ",
            AppError::ConfigurationError { .. } => "Configuration error: ",
            AppError::NotFoundError { .. } => "Resource not found: ",
            AppError::UnavailableError { .. } => "Service unavailable: ",
        };
        String::from_str(label).concat(self.message())
    }
}

impl Status {
    /// The category of the status.
    pub closed spec fn code_of(self) -> Code {
        self.code
    }

    /// The message of the status.
    pub closed spec fn message_of(self) -> Seq<char> {
        self.message@
    }

    /// A status of the given category and message.
    pub fn new(code: Code, message: &str) -> (s: Status)
        ensures
            s.code_of() == code,
            s.message_of() == message@,
    {
        Status { code, message: String::from_str(message) }
    }

    /// The category of the status.
    pub fn code(&self) -> (c: Code)
        ensures
            c == self.code_of(),
    {
        self.code
    }

    /// The message of the status.
    pub fn message(&self) -> (m: &str)
        ensures
            m@ == self.message_of(),
    {
        self.message.as_str()
    }
}

impl From<AppError> for Status {
    /// Reports an error to a remote caller: validation errors as invalid
    /// arguments, internal and configuration errors as internal failures
    /// (the latter with a prefix), the other two under their own category.
    fn from(error: AppError) -> (status: Status)
        ensures
            status.code_of() == error.status_code(),
            status.message_of() == error.status_message(),
    {
        match error {
            AppError::ValidationError { message } => Status {
                code: Code::InvalidArgument,
                message,
            },
            AppError::InternalError { message } => Status { code: Code::Internal, message },
            AppError::ConfigurationError { message } => Status {
                code: Code::Internal,
                message: String::from_str("Service configuration error: ").concat(
                    message.as_str(),
                ),
            },
            AppError::NotFoundError { message } => Status { code: Code::NotFound, message },
            AppError::UnavailableError { message } => Status {
                code: Code::Unavailable,
                message,
            },
        }
    }
}

impl vstd::std_specs::convert::FromSpecImpl<AppError> for Status {
    /// The conversion is stated by the `ensures` of `from`, over the status's
    /// category and message, and not by `from_spec`.
    open spec fn obeys_from_spec() -> bool {
        false
    }

    open spec fn from_spec(error: AppError) -> Status {
        arbitrary()
    }
}

/// Results to which a context can be added when they are failures.
pub trait ErrorContext<T>: Sized {
    /// The value of a success, and `None` for a failure.
    spec fn success(self) -> Option<T>;

    /// Whether `text` is a rendering of the failure that `self` holds.
    spec fn failure_text(self, text: Seq<char>) -> bool;

    /// Keeps a success as it is. Turns a failure into an internal error whose
    /// message is the context that `f` gives, a colon and a blank, and the
    /// failure's own text. `f` is called for a failure only.
    fn with_context<F: FnOnce() -> String>(self, f: F) -> (r: Result<T, AppError>)
        requires
            f.requires(()),
        ensures
            self.success() is Some ==> r == Ok::<T, AppError>(self.success()->0),
            self.success() is None ==> r is Err && r->Err_0 is InternalError && exists|
                context: String,
                detail: Seq<char>,
            |
                f.ensures((), context) && self.failure_text(detail) && r->Err_0.message_text()
                    == context@ + context_separator() + detail,
    ;

    /// As `with_context`, but the failure becomes a validation error.
    fn with_validation_context<F: FnOnce() -> String>(self, f: F) -> (r: Result<T, AppError>)
        requires
            f.requires(()),
        ensures
            self.success() is Some ==> r == Ok::<T, AppError>(self.success()->0),
            self.success() is None ==> r is Err && r->Err_0 is ValidationError && exists|
                context: String,
                detail: Seq<char>,
            |
                f.ensures((), context) && self.failure_text(detail) && r->Err_0.message_text()
                    == context@ + context_separator() + detail,
    ;
}

/// The message of a failure with a context in front of it.
pub fn context_message(context: &str, detail: &str) -> (m: String)
    ensures
        m@ == context@ + context_separator() + detail@,
{
    let m = String::from_str(context).concat(": ").concat(detail);
    assert(m@ =~= context@ + context_separator() + detail@);
    m
}

impl<T, E: core::fmt::Display> ErrorContext<T> for Result<T, E> {
    open spec fn success(self) -> Option<T> {
        match self {
            Ok(v) => Some(v),
            Err(_) => None,
        }
    }

    open spec fn failure_text(self, text: Seq<char>) -> bool {
        self is Err && exists|s: String|
            to_string_from_display_ensures::<E>(&self->Err_0, s) && s@ == text
    }

    fn with_context<F: FnOnce() -> String>(self, f: F) -> (r: Result<T, AppError>) {
        match self {
            Ok(v) => Ok(v),
            Err(e) => {
                let context = f();
                let detail = e.to_string();
                let message = context_message(context.as_str(), detail.as_str());
                Err(AppError::InternalError { message })
            },
        }
    }

    fn with_validation_context<F: FnOnce() -> String>(self, f: F) -> (r: Result<T, AppError>) {
        match self {
            Ok(v) => Ok(v),
            Err(e) => {
                let context = f();
                let detail = e.to_string();
                let message = context_message(context.as_str(), detail.as_str());
                Err(AppError::ValidationError { message })
            },
        }
    }
}

/// The result of an operation that may fail with an `AppError`.
pub type AppResult<T> = Result<T, AppError>;

} // verus!
