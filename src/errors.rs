use vstd::prelude::*;
use vstd::string::*;

verus! {

/// The kinds of input/output failure that the library tells apart.
#[derive(Clone, Copy, Debug, PartialEq, Eq, Structural)]
pub enum IoErrorKind {
    /// The operation would have blocked: nothing is wrong, try again later.
    WouldBlock,
    /// The peer closed the stream in the middle of a read.
    UnexpectedEof,
    /// The operation was interrupted.
    Interrupted,
    /// Any other failure.
    Other,
}

/// An input/output failure, as plain values.
#[derive(Clone, Debug)]
pub struct IoError {
    pub kind: IoErrorKind,
    pub message: String,
}

/// What went wrong.
#[derive(Clone, Debug)]
pub enum ErrorKind {
    NothingToRead,
    MessageSizeExceeded,
    Io { source: IoError },
    ParsingJson { message: String },
    DeserializingBson { message: String },
    SerializingBson { message: String },
    ConversionBson { message: String },
    MalformedMessage { message: String },
    PoisonedLock { message: String },
    SendError { message: String },
    SystemTime { message: String },
    Configuration { message: String },
    Uuid { message: String },
}

/// The error type of the library.
#[derive(Clone, Debug)]
pub struct Error {
    pub kind: ErrorKind,
}

impl From<ErrorKind> for Error {
    fn from(kind: ErrorKind) -> (r: Error)
        ensures
            r.kind == kind,
    {
        Error { kind }
    }
}

impl vstd::std_specs::convert::FromSpecImpl<ErrorKind> for Error {
    open spec fn obeys_from_spec() -> bool {
        true
    }

    open spec fn from_spec(kind: ErrorKind) -> Error {
        Error { kind }
    }
}

/// Whether `error` only says that the operation would have blocked.
pub open spec fn would_block(error: Error) -> bool {
    error.kind matches ErrorKind::Io { source } && source.kind == IoErrorKind::WouldBlock
}

pub fn is_would_block_io_error(error: &IoError) -> (r: bool)
    ensures
        r == (error.kind == IoErrorKind::WouldBlock),
{
    match error.kind {
        IoErrorKind::WouldBlock => true,
        _ => false,
    }
}

pub fn is_would_block_error(error: &Error) -> (r: bool)
    ensures
        r == would_block(*error),
{
    match &error.kind {
        ErrorKind::Io { source } => is_would_block_io_error(source),
        _ => false,
    }
}

pub fn is_would_block_result<T>(result: &Result<T, Error>) -> (r: bool)
    ensures
        r == (*result matches Err(e) && would_block(e)),
{
    match result {
        Err(error) => is_would_block_error(error),
        _ => false,
    }
}

pub fn is_would_block_io_result<T>(result: &Result<T, IoError>) -> (r: bool)
    ensures
        r == (*result matches Err(e) && e.kind == IoErrorKind::WouldBlock),
{
    match result {
        Err(error) => is_would_block_io_error(error),
        _ => false,
    }
}

/// The text of a configuration error about `message`.
pub open spec fn misconfiguration_text(message: Seq<char>) -> Seq<char> {
    "Error > "@ + message
}

/// Fails with a configuration error whose text is `"Error > "` followed by `message`.
pub fn misconfiguration<T>(message: &str) -> (r: Result<T, Error>)
    ensures
        r matches Err(e) && e.kind matches ErrorKind::Configuration { message: m } && m@
            == misconfiguration_text(message@),
{
    let text = String::from_str("Error > ").concat(message);
    Err(Error { kind: ErrorKind::Configuration { message: text } })
}

} // verus!
