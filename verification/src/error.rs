//! Failures of the control plane and of the operations behind it.

use vstd::prelude::*;
use vstd::string::*;

use crate::protocol::MAX_FRAME_BYTES;
use crate::text::{decimal, decimal_text, holds_text, lemma_holds_text};

verus! {

/// Stable response error classes.
#[derive(Clone, Copy, Debug, PartialEq, Eq, Structural)]
pub enum ErrorCode {
    /// Frame or request bytes did not satisfy the contract.
    InvalidRequest,
    /// The caller and daemon do not share a protocol version.
    UnsupportedVersion,
    /// The daemon has no handler for this operation.
    Unsupported,
    /// The application-service handler rejected or failed the operation.
    OperationFailed,
    /// An internal daemon error prevented dispatch.
    Internal,
}

impl ErrorCode {
    /// The name under which diagnostics show each class.
    pub open spec fn label(self) -> Seq<char> {
        match self {
            ErrorCode::InvalidRequest => "InvalidRequest"@,
            ErrorCode::UnsupportedVersion => "UnsupportedVersion"@,
            ErrorCode::Unsupported => "Unsupported"@,
            ErrorCode::OperationFailed => "OperationFailed"@,
            ErrorCode::Internal => "Internal"@,
        }
    }

    pub fn name(self) -> (s: &'static str)
        ensures
            s@ == self.label(),
    {
        match self {
            ErrorCode::InvalidRequest => "InvalidRequest",
            ErrorCode::UnsupportedVersion => "UnsupportedVersion",
            ErrorCode::Unsupported => "Unsupported",
            ErrorCode::OperationFailed => "OperationFailed",
            ErrorCode::Internal => "Internal",
        }
    }
}

/// Plain view of a coded failure.
pub struct FailureView {
    pub code: ErrorCode,
    pub message: Seq<char>,
}

/// The failure that an operation reports with a message.
pub open spec fn failure(message: Seq<char>) -> FailureView {
    FailureView { code: ErrorCode::OperationFailed, message }
}

/// Structured application-service failure.
#[derive(Clone, Debug, PartialEq, Eq)]
pub struct OperationError {
    code: ErrorCode,
    message: String,
}

impl View for OperationError {
    type V = FailureView;

    closed spec fn view(&self) -> FailureView {
        FailureView { code: self.code, message: self.message@ }
    }
}

impl OperationError {
    /// Reports that no application service implements this mutation yet.
    pub fn unsupported(message: &str) -> (error: Self)
        ensures
            error@ == (FailureView { code: ErrorCode::Unsupported, message: message@ }),
    {
        OperationError { code: ErrorCode::Unsupported, message: message.to_owned() }
    }

    /// Reports a failed mutation that may have durable resumable progress.
    pub fn failed(message: &str) -> (error: Self)
        ensures
            error@ == failure(message@),
    {
        OperationError { code: ErrorCode::OperationFailed, message: message.to_owned() }
    }

    /// Returns the machine-readable operation failure class.
    pub fn code(&self) -> (code: ErrorCode)
        ensures
            code == self@.code,
    {
        self.code
    }

    /// Returns the human-readable operation failure detail.
    pub fn message(&self) -> (message: &str)
        ensures
            message@ == self@.message,
    {
        self.message.as_str()
    }

    /// Gives the detail away.
    pub fn into_message(self) -> (message: String)
        ensures
            message@ == self@.message,
    {
        self.message
    }
}

/// Error returned inside a compatible response envelope.
#[derive(Debug, PartialEq, Eq)]
pub struct ResponseError {
    /// Machine-readable class.
    pub code: ErrorCode,
    /// Bounded diagnostic text.
    pub message: String,
}

impl View for ResponseError {
    type V = FailureView;

    open spec fn view(&self) -> FailureView {
        FailureView { code: self.code, message: self.message@ }
    }
}

impl Clone for ResponseError {
    fn clone(&self) -> (copy: Self)
        ensures
            copy@ == self@,
    {
        ResponseError { code: self.code, message: self.message.clone() }
    }
}

/// The kinds of filesystem or socket failure that decisions depend on.
#[derive(Clone, Copy, Debug, PartialEq, Eq, Structural)]
pub enum IoFailureKind {
    NotFound,
    ConnectionRefused,
    ConnectionReset,
    AlreadyExists,
    WouldBlock,
    Interrupted,
    Other,
}

impl IoFailureKind {
    /// Nobody listens behind the path.
    pub open spec fn is_absent_listener(self) -> bool {
        self == IoFailureKind::NotFound || self == IoFailureKind::ConnectionRefused || self
            == IoFailureKind::ConnectionReset
    }

    pub fn absent_listener(self) -> (b: bool)
        ensures
            b == self.is_absent_listener(),
    {
        match self {
            IoFailureKind::NotFound
            | IoFailureKind::ConnectionRefused
            | IoFailureKind::ConnectionReset => true,
            _ => false,
        }
    }

    /// The attempt may simply be repeated later.
    pub open spec fn is_transient(self) -> bool {
        self == IoFailureKind::WouldBlock || self == IoFailureKind::Interrupted
    }

    pub fn transient(self) -> (b: bool)
        ensures
            b == self.is_transient(),
    {
        match self {
            IoFailureKind::WouldBlock | IoFailureKind::Interrupted => true,
            _ => false,
        }
    }
}

/// A failed filesystem or socket operation.
#[derive(Debug, PartialEq, Eq)]
pub struct IoFailure {
    pub kind: IoFailureKind,
    pub message: String,
}

/// Failures from ownership, transport, contract validation, or remote dispatch.
#[derive(Debug, PartialEq, Eq)]
pub enum DaemonError {
    /// Filesystem or Unix socket failure.
    Io(IoFailure),
    /// Another daemon owns this library.
    AlreadyRunning,
    /// A daemon or direct operation already owns the writer lease.
    WriterBusy,
    /// The library root is absent or not a directory.
    InvalidLibrary(String),
    /// A stale socket changed identity before coordinated recovery could remove it.
    StaleSocket(String),
    /// A bounded frame exceeded its ceiling.
    FrameTooLarge { size: usize },
    /// Malformed or inconsistent protocol data.
    Protocol(&'static str),
    /// Application recovery failed while writer ownership was held.
    Startup(String),
    /// Compatible remote daemon rejected the request.
    Remote(ResponseError),
}

/// Plain view of a daemon failure.
pub enum DaemonErrorView {
    Io { kind: IoFailureKind, message: Seq<char> },
    AlreadyRunning,
    WriterBusy,
    InvalidLibrary(Seq<char>),
    StaleSocket(Seq<char>),
    FrameTooLarge { size: nat },
    Protocol(Seq<char>),
    Startup(Seq<char>),
    Remote(FailureView),
}

impl View for DaemonError {
    type V = DaemonErrorView;

    open spec fn view(&self) -> DaemonErrorView {
        match self {
            DaemonError::Io(failure) => DaemonErrorView::Io {
                kind: failure.kind,
                message: failure.message@,
            },
            DaemonError::AlreadyRunning => DaemonErrorView::AlreadyRunning,
            DaemonError::WriterBusy => DaemonErrorView::WriterBusy,
            DaemonError::InvalidLibrary(path) => DaemonErrorView::InvalidLibrary(path@),
            DaemonError::StaleSocket(path) => DaemonErrorView::StaleSocket(path@),
            DaemonError::FrameTooLarge { size } => DaemonErrorView::FrameTooLarge {
                size: *size as nat,
            },
            DaemonError::Protocol(message) => DaemonErrorView::Protocol(message@),
            DaemonError::Startup(message) => DaemonErrorView::Startup(message@),
            DaemonError::Remote(error) => DaemonErrorView::Remote(error@),
        }
    }
}

/// What is shown for each failure; `frame_limit` is the frame ceiling.
pub open spec fn daemon_error_text(error: DaemonErrorView) -> Seq<char> {
    match error {
        DaemonErrorView::Io { kind, message } => "daemon I/O failed: "@ + message,
        DaemonErrorView::AlreadyRunning => "a daemon already owns this library"@,
        DaemonErrorView::WriterBusy => "another process owns this library writer"@,
        DaemonErrorView::InvalidLibrary(path) => path + " is not an existing library directory"@,
        DaemonErrorView::StaleSocket(path) => "stale socket "@ + path
            + " changed during recovery; retry without removing it manually"@,
        DaemonErrorView::FrameTooLarge { size } => "IPC frame is "@ + decimal(size)
            + " bytes; maximum is "@ + decimal(MAX_FRAME_BYTES as nat),
        DaemonErrorView::Protocol(message) => "invalid daemon protocol: "@ + message,
        DaemonErrorView::Startup(message) => "daemon startup recovery failed: "@ + message,
        DaemonErrorView::Remote(failure) => "daemon rejected request ("@ + failure.code.label()
            + "): "@ + failure.message,
    }
}

impl DaemonError {
    /// Human-readable description.
    pub fn message(&self) -> (s: String)
        ensures
            s@ == daemon_error_text(self@),
    {
        match self {
            DaemonError::Io(failure) => {
                let mut s = "daemon I/O failed: ".to_owned();
                s.append(failure.message.as_str());
                s
            },
            DaemonError::AlreadyRunning => "a daemon already owns this library".to_owned(),
            DaemonError::WriterBusy => "another process owns this library writer".to_owned(),
            DaemonError::InvalidLibrary(path) => {
                let mut s = path.clone();
                s.append(" is not an existing library directory");
                s
            },
            DaemonError::StaleSocket(path) => {
                let mut s = "stale socket ".to_owned();
                s.append(path.as_str());
                s.append(" changed during recovery; retry without removing it manually");
                s
            },
            DaemonError::FrameTooLarge { size } => {
                let mut s = "IPC frame is ".to_owned();
                s.append(decimal_text(*size as u64).as_str());
                s.append(" bytes; maximum is ");
                s.append(decimal_text(MAX_FRAME_BYTES as u64).as_str());
                s
            },
            DaemonError::Protocol(message) => {
                let mut s = "invalid daemon protocol: ".to_owned();
                s.append(message);
                s
            },
            DaemonError::Startup(message) => {
                let mut s = "daemon startup recovery failed: ".to_owned();
                s.append(message.as_str());
                s
            },
            DaemonError::Remote(error) => {
                let mut s = "daemon rejected request (".to_owned();
                s.append(error.code.name());
                s.append("): ");
                s.append(error.message.as_str());
                s
            },
        }
    }
}

/// Every failure is shown with the detail that it has, and no two kinds of failure share a text.
pub proof fn law_failures_show_their_detail(error: DaemonError, text: String)
    requires
        call_ensures(DaemonError::message, (&error,), text),
    ensures
        match error@ {
            DaemonErrorView::Io { kind, message } => holds_text(text@, message),
            DaemonErrorView::InvalidLibrary(path) => holds_text(text@, path),
            DaemonErrorView::StaleSocket(path) => holds_text(text@, path),
            DaemonErrorView::FrameTooLarge { size } => holds_text(text@, decimal(size)),
            DaemonErrorView::Protocol(message) => holds_text(text@, message),
            DaemonErrorView::Startup(message) => holds_text(text@, message),
            DaemonErrorView::Remote(failure) => holds_text(text@, failure.message),
            DaemonErrorView::AlreadyRunning => text@ == "a daemon already owns this library"@,
            DaemonErrorView::WriterBusy => text@ == "another process owns this library writer"@,
        },
{
    let none = Seq::<char>::empty();
    match error@ {
        DaemonErrorView::Io { kind, message } => {
            lemma_holds_text("daemon I/O failed: "@, message, none);
            assert("daemon I/O failed: "@ + message + none =~= text@);
        },
        DaemonErrorView::InvalidLibrary(path) => {
            lemma_holds_text(none, path, " is not an existing library directory"@);
            assert(none + path + " is not an existing library directory"@ =~= text@);
        },
        DaemonErrorView::StaleSocket(path) => {
            lemma_holds_text(
                "stale socket "@,
                path,
                " changed during recovery; retry without removing it manually"@,
            );
        },
        DaemonErrorView::FrameTooLarge { size } => {
            let rest = " bytes; maximum is "@ + decimal(MAX_FRAME_BYTES as nat);
            lemma_holds_text("IPC frame is "@, decimal(size), rest);
            assert("IPC frame is "@ + decimal(size) + rest =~= text@);
        },
        DaemonErrorView::Protocol(message) => {
            lemma_holds_text("invalid daemon protocol: "@, message, none);
            assert("invalid daemon protocol: "@ + message + none =~= text@);
        },
        DaemonErrorView::Startup(message) => {
            lemma_holds_text("daemon startup recovery failed: "@, message, none);
            assert("daemon startup recovery failed: "@ + message + none =~= text@);
        },
        DaemonErrorView::Remote(failure) => {
            let head = "daemon rejected request ("@ + failure.code.label() + "): "@;
            lemma_holds_text(head, failure.message, none);
            assert(head + failure.message + none =~= text@);
        },
        _ => {},
    }
}

/// Each class of error is shown under its own name.
pub proof fn law_error_classes_have_names(code: ErrorCode, name: &'static str)
    requires
        call_ensures(ErrorCode::name, (code,), name),
    ensures
        name@ == match code {
            ErrorCode::InvalidRequest => "InvalidRequest"@,
            ErrorCode::UnsupportedVersion => "UnsupportedVersion"@,
            ErrorCode::Unsupported => "Unsupported"@,
            ErrorCode::OperationFailed => "OperationFailed"@,
            ErrorCode::Internal => "Internal"@,
        },
{
}

/// A failed operation keeps its message; one that nobody implements is told apart from one that
/// was tried.
pub proof fn law_failures_keep_their_message(
    message: &str,
    unsupported: OperationError,
    failed: OperationError,
    codes: (ErrorCode, ErrorCode),
    texts: (&str, &str),
)
    requires
        call_ensures(OperationError::unsupported, (message,), unsupported),
        call_ensures(OperationError::failed, (message,), failed),
        call_ensures(OperationError::code, (&unsupported,), codes.0),
        call_ensures(OperationError::code, (&failed,), codes.1),
        call_ensures(OperationError::message, (&unsupported,), texts.0),
        call_ensures(OperationError::message, (&failed,), texts.1),
    ensures
        codes == (ErrorCode::Unsupported, ErrorCode::OperationFailed),
        texts.0@ == message@ && texts.1@ == message@,
{
}

/// Nobody listens where nothing is found or the connection is refused or reset; only what would
/// block or was interrupted passes by itself.
pub proof fn law_failure_kinds_are_told_apart(
    kind: IoFailureKind,
    absent: bool,
    transient: bool,
)
    requires
        call_ensures(IoFailureKind::absent_listener, (kind,), absent),
        call_ensures(IoFailureKind::transient, (kind,), transient),
    ensures
        absent <==> kind == IoFailureKind::NotFound || kind == IoFailureKind::ConnectionRefused
            || kind == IoFailureKind::ConnectionReset,
        transient <==> kind == IoFailureKind::WouldBlock || kind == IoFailureKind::Interrupted,
        !(absent && transient),
{
}

} // verus!
