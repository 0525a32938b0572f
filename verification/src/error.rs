//! Error statuses of CEL operations, modelled after `absl::Status`.
use vstd::prelude::*;
use crate::types::{type_display, InvalidMapKeyType};

verus! {

/// The status codes of CEL errors, after the Google RPC status codes.
#[derive(Clone, Copy, Debug, PartialEq, Eq, Hash, Structural)]
pub enum Code {
    /// The operation completed successfully.
    Success,
    /// The operation was cancelled.
    Cancelled,
    /// Unknown error, such as one converted from an unrecognised error type.
    Unknown,
    /// The caller specified an invalid argument, such as an expression with a syntax error.
    InvalidArgument,
    /// The deadline expired before the operation could complete.
    DeadlineExceeded,
    /// A requested entity, such as a variable or a function, was not found.
    NotFound,
    /// An entity that was to be created already exists.
    AlreadyExists,
    /// The caller may not execute the operation.
    PermissionDenied,
    /// A resource, such as memory or computation, has been exhausted.
    ResourceExhausted,
    /// The system is not in the state that the operation requires.
    FailedPrecondition,
    /// The operation was aborted.
    Aborted,
    /// The operation went past the valid range.
    OutOfRange,
    /// The operation is not implemented or not supported.
    Unimplemented,
    /// An internal invariant was broken.
    Internal,
    /// The service is currently unavailable.
    Unavailable,
    /// Unrecoverable data loss or corruption.
    DataLoss,
    /// The request lacks valid authentication credentials.
    Unauthenticated,
}

/// The human-readable description of a status code.
pub open spec fn code_description(code: Code) -> Seq<char> {
    match code {
        Code::Success => "The operation completed successfully"@,
        Code::Cancelled => "The operation was cancelled"@,
        Code::Unknown => "Unknown error"@,
        Code::InvalidArgument => "Client specified an invalid argument"@,
        Code::DeadlineExceeded => "Deadline expired before operation could complete"@,
        Code::NotFound => "Some requested entity was not found"@,
        Code::AlreadyExists => "Some entity that we attempted to create already exists"@,
        Code::PermissionDenied => "The caller does not have permission to execute the specified operation"@,
        Code::ResourceExhausted => "Some resource has been exhausted"@,
        Code::FailedPrecondition => "The system is not in a state required for the operation's execution"@,
        Code::Aborted => "The operation was aborted"@,
        Code::OutOfRange => "Operation was attempted past the valid range"@,
        Code::Unimplemented => "Operation is not implemented or not supported"@,
        Code::Internal => "Internal error"@,
        Code::Unavailable => "The service is currently unavailable"@,
        Code::DataLoss => "Unrecoverable data loss or corruption"@,
        Code::Unauthenticated => "The request does not have valid authentication credentials"@,
    }
}

/// The name of a status code as the code's debug text gives it; the code of
/// success is named `Ok`.
pub open spec fn code_name(code: Code) -> Seq<char> {
    match code {
        Code::Success => "Ok"@,
        Code::Cancelled => "Cancelled"@,
        Code::Unknown => "Unknown"@,
        Code::InvalidArgument => "InvalidArgument"@,
        Code::DeadlineExceeded => "DeadlineExceeded"@,
        Code::NotFound => "NotFound"@,
        Code::AlreadyExists => "AlreadyExists"@,
        Code::PermissionDenied => "PermissionDenied"@,
        Code::ResourceExhausted => "ResourceExhausted"@,
        Code::FailedPrecondition => "FailedPrecondition"@,
        Code::Aborted => "Aborted"@,
        Code::OutOfRange => "OutOfRange"@,
        Code::Unimplemented => "Unimplemented"@,
        Code::Internal => "Internal"@,
        Code::Unavailable => "Unavailable"@,
        Code::DataLoss => "DataLoss"@,
        Code::Unauthenticated => "Unauthenticated"@,
    }
}

impl Code {
    /// Returns the human-readable description of this code.
    pub fn description(&self) -> (r: &'static str)
        ensures
            r@ == code_description(*self),
    {
        match self {
            Code::Success => "The operation completed successfully",
            Code::Cancelled => "The operation was cancelled",
            Code::Unknown => "Unknown error",
            Code::InvalidArgument => "Client specified an invalid argument",
            Code::DeadlineExceeded => "Deadline expired before operation could complete",
            Code::NotFound => "Some requested entity was not found",
            Code::AlreadyExists => "Some entity that we attempted to create already exists",
            Code::PermissionDenied => "The caller does not have permission to execute the specified operation",
            Code::ResourceExhausted => "Some resource has been exhausted",
            Code::FailedPrecondition => "The system is not in a state required for the operation's execution",
            Code::Aborted => "The operation was aborted",
            Code::OutOfRange => "Operation was attempted past the valid range",
            Code::Unimplemented => "Operation is not implemented or not supported",
            Code::Internal => "Internal error",
            Code::Unavailable => "The service is currently unavailable",
            Code::DataLoss => "Unrecoverable data loss or corruption",
            Code::Unauthenticated => "The request does not have valid authentication credentials",
        }
    }

    /// Returns the name of this code, as in the `code: ...` part of an
    /// error's display text; the code of success is named `Ok`.
    pub fn name(&self) -> (r: &'static str)
        ensures
            r@ == code_name(*self),
    {
        match self {
            Code::Success => "Ok",
            Code::Cancelled => "Cancelled",
            Code::Unknown => "Unknown",
            Code::InvalidArgument => "InvalidArgument",
            Code::DeadlineExceeded => "DeadlineExceeded",
            Code::NotFound => "NotFound",
            Code::AlreadyExists => "AlreadyExists",
            Code::PermissionDenied => "PermissionDenied",
            Code::ResourceExhausted => "ResourceExhausted",
            Code::FailedPrecondition => "FailedPrecondition",
            Code::Aborted => "Aborted",
            Code::OutOfRange => "OutOfRange",
            Code::Unimplemented => "Unimplemented",
            Code::Internal => "Internal",
            Code::Unavailable => "Unavailable",
            Code::DataLoss => "DataLoss",
            Code::Unauthenticated => "Unauthenticated",
        }
    }

    /// Returns the display text of this code: its description.
    pub fn to_string(&self) -> (r: String)
        ensures
            r@ == code_description(*self),
    {
        self.description().to_string()
    }
}

/// The debug text of a string: the string in double quotes, with its
/// characters escaped as `str`'s `Debug` formatting does.
pub uninterp spec fn debug_text(s: Seq<char>) -> Seq<char>;

/// Formats `s` with `str`'s `Debug` formatting (`format!("{:?}", s)`); the
/// result is named [`debug_text`], and nothing more is claimed of it.
#[verifier::external_body]
fn debug_quote(s: &str) -> (r: String)
    ensures
        r@ == debug_text(s@),
{
    format!("{:?}", s)
}

/// The display text of an error: `code: <name>, message: <quoted message>`,
/// from the code and the debug text of the message.
pub open spec fn error_text(code: Code, quoted_message: Seq<char>) -> Seq<char> {
    "code: "@ + code_name(code) + ", message: "@ + quoted_message
}

/// An error of a CEL operation: a status code and a message.
#[derive(Debug, Hash)]
pub struct Error {
    code: Code,
    message: String,
}

impl View for Error {
    type V = (Code, Seq<char>);

    /// The code and the characters of the message.
    closed spec fn view(&self) -> (Code, Seq<char>) {
        (self.code, self.message@)
    }
}

impl Error {
    /// Creates an error with the given code and message.
    pub fn new(code: Code, message: &str) -> (r: Error)
        ensures
            r@ == (code, message@),
    {
        Error { code, message: message.to_string() }
    }

    /// Creates an error of code [`Code::Success`] with the given message.
    pub fn ok(message: &str) -> (r: Error)
        ensures
            r@ == (Code::Success, message@),
    {
        Self::new(Code::Success, message)
    }

    /// Creates an error of code [`Code::Cancelled`] with the given message.
    pub fn cancelled(message: &str) -> (r: Error)
        ensures
            r@ == (Code::Cancelled, message@),
    {
        Self::new(Code::Cancelled, message)
    }

    /// Creates an error of code [`Code::Unknown`] with the given message.
    pub fn unknown(message: &str) -> (r: Error)
        ensures
            r@ == (Code::Unknown, message@),
    {
        Self::new(Code::Unknown, message)
    }

    /// Creates an error of code [`Code::InvalidArgument`] with the given message.
    pub fn invalid_argument(message: &str) -> (r: Error)
        ensures
            r@ == (Code::InvalidArgument, message@),
    {
        Self::new(Code::InvalidArgument, message)
    }

    /// Creates an error of code [`Code::DeadlineExceeded`] with the given message.
    pub fn deadline_exceeded(message: &str) -> (r: Error)
        ensures
            r@ == (Code::DeadlineExceeded, message@),
    {
        Self::new(Code::DeadlineExceeded, message)
    }

    /// Creates an error of code [`Code::NotFound`] with the given message.
    pub fn not_found(message: &str) -> (r: Error)
        ensures
            r@ == (Code::NotFound, message@),
    {
        Self::new(Code::NotFound, message)
    }

    /// Creates an error of code [`Code::AlreadyExists`] with the given message.
    pub fn already_exists(message: &str) -> (r: Error)
        ensures
            r@ == (Code::AlreadyExists, message@),
    {
        Self::new(Code::AlreadyExists, message)
    }

    /// Creates an error of code [`Code::PermissionDenied`] with the given message.
    pub fn permission_denied(message: &str) -> (r: Error)
        ensures
            r@ == (Code::PermissionDenied, message@),
    {
        Self::new(Code::PermissionDenied, message)
    }

    /// Creates an error of code [`Code::ResourceExhausted`] with the given message.
    pub fn resource_exhausted(message: &str) -> (r: Error)
        ensures
            r@ == (Code::ResourceExhausted, message@),
    {
        Self::new(Code::ResourceExhausted, message)
    }

    /// Creates an error of code [`Code::FailedPrecondition`] with the given message.
    pub fn failed_precondition(message: &str) -> (r: Error)
        ensures
            r@ == (Code::FailedPrecondition, message@),
    {
        Self::new(Code::FailedPrecondition, message)
    }

    /// Creates an error of code [`Code::Aborted`] with the given message.
    pub fn aborted(message: &str) -> (r: Error)
        ensures
            r@ == (Code::Aborted, message@),
    {
        Self::new(Code::Aborted, message)
    }

    /// Creates an error of code [`Code::OutOfRange`] with the given message.
    pub fn out_of_range(message: &str) -> (r: Error)
        ensures
            r@ == (Code::OutOfRange, message@),
    {
        Self::new(Code::OutOfRange, message)
    }

    /// Creates an error of code [`Code::Unimplemented`] with the given message.
    pub fn unimplemented(message: &str) -> (r: Error)
        ensures
            r@ == (Code::Unimplemented, message@),
    {
        Self::new(Code::Unimplemented, message)
    }

    /// Creates an error of code [`Code::Internal`] with the given message.
    pub fn internal(message: &str) -> (r: Error)
        ensures
            r@ == (Code::Internal, message@),
    {
        Self::new(Code::Internal, message)
    }

    /// Creates an error of code [`Code::Unavailable`] with the given message.
    pub fn unavailable(message: &str) -> (r: Error)
        ensures
            r@ == (Code::Unavailable, message@),
    {
        Self::new(Code::Unavailable, message)
    }

    /// Creates an error of code [`Code::DataLoss`] with the given message.
    pub fn data_loss(message: &str) -> (r: Error)
        ensures
            r@ == (Code::DataLoss, message@),
    {
        Self::new(Code::DataLoss, message)
    }

    /// Creates an error of code [`Code::Unauthenticated`] with the given message.
    pub fn unauthenticated(message: &str) -> (r: Error)
        ensures
            r@ == (Code::Unauthenticated, message@),
    {
        Self::new(Code::Unauthenticated, message)
    }

    /// Returns the code.
    pub fn code(&self) -> (r: Code)
        ensures
            r == self@.0,
    {
        self.code
    }

    /// Returns the message.
    pub fn message(&self) -> (r: &str)
        ensures
            r@ == self@.1,
    {
        self.message.as_str()
    }

    /// Returns the display text of this error, given the debug text of its
    /// message: `code: <name>, message: <quoted_message>`.
    pub fn display_with(&self, quoted_message: &str) -> (r: String)
        ensures
            r@ == error_text(self@.0, quoted_message@),
    {
        let mut s = String::from_str("code: ");
        s.append(self.code.name());
        s.append(", message: ");
        s.append(quoted_message);
        s
    }

    /// Returns the display text of this error: `code: <name>, message: `
    /// followed by the message in double quotes, escaped as `Debug` does.
    pub fn to_string(&self) -> (r: String)
        ensures
            r@ == error_text(self@.0, debug_text(self@.1)),
    {
        let quoted = debug_quote(self.message.as_str());
        self.display_with(quoted.as_str())
    }

    /// Returns the first recognised error of a source chain, if there is one.
    ///
    /// `chain` holds an error followed by its sources, outermost first, each
    /// classified by what it is. A CEL error is returned as it is; an invalid
    /// map key type becomes an [`Code::InvalidArgument`] error whose message is
    /// the display text of the refused type; other errors are passed over.
    pub fn find_in_source_chain(chain: &Vec<ErrorSource>) -> (r: Option<Error>)
        ensures
            match r {
                Some(e) => source_chain_error(chain@) == Some(e@),
                None => source_chain_error(chain@).is_none(),
            },
    {
        let n = chain.len();
        let mut i: usize = 0;
        assert(chain@.subrange(0, n as int) =~= chain@);
        while i < n
            invariant
                n == chain@.len(),
                0 <= i <= n,
                source_chain_error(chain@) == source_chain_error(chain@.subrange(i as int, n as int)),
            decreases n - i,
        {
            let ghost rest = chain@.subrange(i as int, n as int);
            assert(rest[0] == chain@[i as int]);
            match &chain[i] {
                ErrorSource::Cel(e) => {
                    return Some(e.clone());
                },
                ErrorSource::InvalidMapKey(k) => {
                    let text = k.0.to_string();
                    return Some(Error::invalid_argument(text.as_str()));
                },
                ErrorSource::Other => {},
            }
            assert(rest.subrange(1, rest.len() as int) =~= chain@.subrange(i + 1, n as int));
            i += 1;
        }
        None
    }
}

/// One error of a source chain, classified by what it is.
#[derive(Debug)]
pub enum ErrorSource {
    /// A CEL error.
    Cel(Error),
    /// An error that refused a type as a map key type.
    InvalidMapKey(InvalidMapKeyType),
    /// Any other error.
    Other,
}

/// The first recognised error of a source chain, as a code and a message.
pub open spec fn source_chain_error(chain: Seq<ErrorSource>) -> Option<(Code, Seq<char>)>
    decreases chain.len(),
{
    if chain.len() == 0 {
        None
    } else {
        match chain[0] {
            ErrorSource::Cel(e) => Some(e@),
            ErrorSource::InvalidMapKey(k) => Some((Code::InvalidArgument, type_display(k.0@))),
            ErrorSource::Other => source_chain_error(chain.subrange(1, chain.len() as int)),
        }
    }
}

impl Clone for Error {
    fn clone(&self) -> (r: Self)
        ensures
            r@ == self@,
    {
        Error { code: self.code, message: self.message.clone() }
    }
}

impl PartialEq for Error {
    fn eq(&self, other: &Self) -> (r: bool) {
        self.code == other.code && self.message == other.message
    }
}

impl Eq for Error {}

impl vstd::std_specs::cmp::PartialEqSpecImpl for Error {
    open spec fn obeys_eq_spec() -> bool {
        true
    }

    open spec fn eq_spec(&self, other: &Error) -> bool {
        self@ == other@
    }
}

} // verus!
