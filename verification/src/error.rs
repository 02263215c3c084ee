//! The one error type of the crate.

use vstd::prelude::*;

verus! {

/// `std::io::Error`, the error of a sink. It is only ever carried from the
/// sink to the caller; nothing of what it holds is looked at or claimed.
#[verifier::external_type_specification]
#[verifier::external_body]
pub struct ExIoError(std::io::Error);

/// What an [`Error`] stands for.
pub enum ErrorView {
    /// A problem with the data itself, described by whoever drove the
    /// serializer.
    Message(Seq<char>),
    /// The sink refused a write; the cause is the sink's own error.
    Io(std::io::Error),
}

/// Why a serialization stopped.
///
/// Every failure is final for the call it came from: nothing is retried and
/// nothing already written is taken back.
#[derive(Debug)]
pub struct Error {
    err: Box<ErrorImpl>,
}

#[derive(Debug)]
struct ErrorImpl {
    code: ErrorCode,
}

#[derive(Debug)]
pub(crate) enum ErrorCode {
    Message(String),
    Io(std::io::Error),
}

impl View for Error {
    type V = ErrorView;

    closed spec fn view(&self) -> ErrorView {
        match self.err.code {
            ErrorCode::Message(m) => ErrorView::Message(m@),
            ErrorCode::Io(e) => ErrorView::Io(e),
        }
    }
}

/// The text that std's `Display` gives for an I/O error (`ToString::to_string`
/// on `std::io::Error`). It depends on the error and on the platform's own
/// wording, so nothing is claimed of it.
#[verifier::external_body]
fn io_error_text(error: &std::io::Error) -> String {
    error.to_string()
}

impl ErrorCode {
    /// The code as a reader sees it: the message itself, or the sink's own
    /// description of what went wrong.
    pub(crate) fn describe(&self) -> (s: String)
        ensures
            self matches ErrorCode::Message(m) ==> s@ == m@,
    {
        match self {
            ErrorCode::Message(m) => m.clone(),
            ErrorCode::Io(err) => io_error_text(err),
        }
    }
}

impl Error {
    /// Wraps the failure of a sink.
    pub fn io(error: std::io::Error) -> (e: Error)
        ensures
            e@ == ErrorView::Io(error),
    {
        Error { err: Box::new(ErrorImpl { code: ErrorCode::Io(error) }) }
    }

    /// An error that carries a message, for problems of the data model
    /// rather than of the sink.
    pub fn custom(msg: &str) -> (e: Error)
        ensures
            e@ == ErrorView::Message(msg@),
    {
        Error { err: Box::new(ErrorImpl { code: ErrorCode::Message(msg.to_owned()) }) }
    }

    /// Whether a sink's failure is what this error wraps.
    pub fn is_io(&self) -> (b: bool)
        ensures
            b == (self@ is Io),
    {
        match self.err.code {
            ErrorCode::Io(_) => true,
            ErrorCode::Message(_) => false,
        }
    }

    /// The error as text: the message of a message error, the sink's own
    /// words for an I/O error.
    pub fn message(&self) -> (s: String)
        ensures
            self@ matches ErrorView::Message(m) ==> s@ == m,
    {
        self.err.code.describe()
    }

    /// Takes the error apart: the sink's error, or else the message.
    pub fn into_io(self) -> (r: Result<std::io::Error, String>)
        ensures
            match self@ {
                ErrorView::Io(e) => r == Ok::<std::io::Error, String>(e),
                ErrorView::Message(m) => r matches Err(s) && s@ == m,
            },
    {
        match self.err.code {
            ErrorCode::Io(e) => Ok(e),
            ErrorCode::Message(m) => Err(m),
        }
    }
}

} // verus!
