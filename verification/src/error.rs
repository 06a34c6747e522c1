//! Errors of the profiling backends.

use vstd::prelude::*;

verus! {

/// What sort of error it is.
#[derive(Copy, Clone, Debug, PartialEq, Eq, Structural)]
pub enum ErrorKind {
    /// What was asked for was not found.
    NotFound,
    /// The caller may not do this.
    PermissionDenied,
    /// What was to be made exists already.
    AlreadyExists,
    /// The operation would have to wait.
    WouldBlock,
    /// An argument is out of range.
    InvalidInput,
    /// The data makes no sense.
    InvalidData,
    /// The operation took too long.
    TimedOut,
    /// Nothing could be written.
    WriteZero,
    /// The operation was interrupted.
    Interrupted,
    /// The operation has no implementation here.
    Unsupported,
    /// The data ended too early.
    UnexpectedEof,
    /// There is no memory left.
    OutOfMemory,
    /// The operating system refused; its code says why.
    System,
    /// Anything else.
    Other,
}

/// A failed operation of the profiler.
#[derive(Debug)]
pub enum IoError {
    /// The operating system reported `code`; `text` describes it.
    Os { code: i32, text: String },
    /// The profiler itself reported the error.
    Custom { kind: ErrorKind, message: String },
}

impl IoError {
    /// The code that the operating system reported.
    pub open spec fn os_code(&self) -> Option<i32> {
        match self {
            IoError::Os { code, text } => Some(*code),
            IoError::Custom { kind, message } => None,
        }
    }

    /// What sort of error it is.
    pub open spec fn sort(&self) -> ErrorKind {
        match self {
            IoError::Os { code, text } => ErrorKind::System,
            IoError::Custom { kind, message } => *kind,
        }
    }

    /// The text that describes the error.
    pub open spec fn described(&self) -> Seq<char> {
        match self {
            IoError::Os { code, text } => text@,
            IoError::Custom { kind, message } => message@,
        }
    }

    /// It is an error of the profiler itself, of sort `kind` and with text
    /// `message`.
    pub open spec fn is_custom(&self, kind: ErrorKind, message: Seq<char>) -> bool {
        self.os_code() is None && self.sort() == kind && self.described() == message
    }

    /// An error that the operating system reported.
    pub fn from_raw_os_error(code: i32, text: String) -> (error: IoError)
        ensures
            error.os_code() == Some(code),
            error.sort() == ErrorKind::System,
            error.described() == text@,
    {
        IoError::Os { code, text }
    }

    /// An error of the profiler itself.
    pub fn new(kind: ErrorKind, message: String) -> (error: IoError)
        ensures
            error.is_custom(kind, message@),
    {
        IoError::Custom { kind, message }
    }

    /// An error of sort `kind` whose text is `context` and then the text of
    /// `cause`.
    pub fn caused(kind: ErrorKind, context: &str, cause: &IoError) -> (error: IoError)
        ensures
            error.is_custom(kind, context@ + cause.described()),
    {
        let mut message = context.to_owned();
        message.append(cause.message());
        IoError::Custom { kind, message }
    }

    /// The code that the operating system reported.
    pub fn raw_os_error(&self) -> (code: Option<i32>)
        ensures
            code == self.os_code(),
    {
        match self {
            IoError::Os { code, text: _ } => Some(*code),
            IoError::Custom { kind: _, message: _ } => None,
        }
    }

    /// What sort of error it is.
    pub fn kind(&self) -> (kind: ErrorKind)
        ensures
            kind == self.sort(),
    {
        match self {
            IoError::Os { code: _, text: _ } => ErrorKind::System,
            IoError::Custom { kind, message: _ } => *kind,
        }
    }

    /// The text that describes the error.
    pub fn message(&self) -> (message: &str)
        ensures
            message@ == self.described(),
    {
        match self {
            IoError::Os { code: _, text } => text.as_str(),
            IoError::Custom { kind: _, message } => message.as_str(),
        }
    }
}

} // verus!
