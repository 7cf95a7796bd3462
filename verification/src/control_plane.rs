//! Ownership of a library through its two control sockets.
//!
//! The filesystem and the sockets are observed outside; each function here takes one
//! observation and decides what it means and what to observe or do next.

use vstd::prelude::*;
use vstd::string::*;

use crate::error::{DaemonError, DaemonErrorView, IoFailure, IoFailureKind};

verus! {

/// Library-local daemon request socket name.
pub const DAEMON_SOCKET_NAME: &'static str = ".wikisyncd.sock";

/// Library-local cooperative writer lease socket name.
pub const WRITER_SOCKET_NAME: &'static str = ".wikisync-writer.sock";

/// Library-local startup lock name.
pub const IPC_LOCK_NAME: &'static str = ".wikisync-ipc.lock";

/// How often an inspection looks at a socket that keeps changing.
pub const INSPECTION_ATTEMPTS: u8 = 3;

/// A name under a directory.
pub open spec fn joined(root: Seq<char>, name: Seq<char>) -> Seq<char> {
    if root.len() == 0 {
        name
    } else if root.last() == '/' {
        root + name
    } else {
        root + "/"@ + name
    }
}

/// Joins a directory and a relative name.
pub fn join_path(root: &str, name: &str) -> (path: String)
    ensures
        path@ == joined(root@, name@),
{
    let length: usize = root.unicode_len();
    if length == 0 {
        return name.to_owned();
    }
    let mut path = root.to_owned();
    if root.get_char(length - 1) != '/' {
        path.append("/");
    }
    path.append(name);
    path
}

/// Returns the daemon socket path for a library root.
pub fn daemon_socket_path(library_root: &str) -> (path: String)
    ensures
        path@ == joined(library_root@, DAEMON_SOCKET_NAME@),
{
    join_path(library_root, DAEMON_SOCKET_NAME)
}

/// Returns the cooperative writer lease socket path for a library root.
pub fn writer_socket_path(library_root: &str) -> (path: String)
    ensures
        path@ == joined(library_root@, WRITER_SOCKET_NAME@),
{
    join_path(library_root, WRITER_SOCKET_NAME)
}

/// Returns the startup lock path for a library root.
pub fn ipc_lock_path(library_root: &str) -> (path: String)
    ensures
        path@ == joined(library_root@, IPC_LOCK_NAME@),
{
    join_path(library_root, IPC_LOCK_NAME)
}

/// Read-only state of one library-local control socket path.
#[derive(Clone, Copy, Debug, PartialEq, Eq, Structural)]
pub enum LocalSocketState {
    /// No filesystem entry exists at the expected path.
    Missing,
    /// A Unix socket accepts local connections at the expected path.
    Active,
    /// A Unix socket entry remains but no listener responds.
    Stale,
    /// A symlink or non-socket entry occupies the expected path.
    UnexpectedPath,
}

/// Read-only state of the daemon request socket and cooperative writer lease.
#[derive(Clone, Copy, Debug, PartialEq, Eq, Structural)]
pub struct ControlPlaneState {
    /// Daemon request socket state.
    pub daemon: LocalSocketState,
    /// Cooperative writer lease socket state.
    pub writer: LocalSocketState,
}

/// Which filesystem object an entry is.
#[derive(Clone, Copy, Debug, PartialEq, Eq, Structural)]
pub struct SocketIdentity {
    pub device: u64,
    pub inode: u64,
}

/// What kind of entry stands at a path, links not followed.
#[derive(Clone, Copy, Debug, PartialEq, Eq, Structural)]
pub enum EntryKind {
    Socket,
    File,
    Other,
}

/// A filesystem entry.
#[derive(Clone, Copy, Debug, PartialEq, Eq, Structural)]
pub struct PathEntry {
    pub kind: EntryKind,
    pub identity: SocketIdentity,
}

/// What an inspection found at a socket path.
#[derive(Clone, Copy, Debug, PartialEq, Eq, Structural)]
pub enum SocketInspection {
    Missing,
    Active,
    Stale(SocketIdentity),
    UnexpectedPath,
}

impl SocketInspection {
    /// The state without the identity.
    pub open spec fn state(self) -> LocalSocketState {
        match self {
            SocketInspection::Missing => LocalSocketState::Missing,
            SocketInspection::Active => LocalSocketState::Active,
            SocketInspection::Stale(_) => LocalSocketState::Stale,
            SocketInspection::UnexpectedPath => LocalSocketState::UnexpectedPath,
        }
    }

    pub fn public_state(self) -> (state: LocalSocketState)
        ensures
            state == self.state(),
    {
        match self {
            SocketInspection::Missing => LocalSocketState::Missing,
            SocketInspection::Active => LocalSocketState::Active,
            SocketInspection::Stale(_) => LocalSocketState::Stale,
            SocketInspection::UnexpectedPath => LocalSocketState::UnexpectedPath,
        }
    }
}

/// A failed observation as an error.
pub open spec fn io_error(failure: IoFailure) -> DaemonErrorView {
    DaemonErrorView::Io { kind: failure.kind, message: failure.message@ }
}

/// What stands at a given library root.
#[derive(Debug, PartialEq, Eq)]
pub enum RootProbe {
    /// Nothing, or no directory.
    NotDirectory,
    /// A directory, and its canonical path or why that could not be found.
    Directory(Result<String, IoFailure>),
}

/// The canonical root of a library, or why there is none.
pub open spec fn canonical_root(path: Seq<char>, probe: RootProbe) -> Result<
    Seq<char>,
    DaemonErrorView,
> {
    match probe {
        RootProbe::NotDirectory => Err(DaemonErrorView::InvalidLibrary(path)),
        RootProbe::Directory(Ok(root)) => Ok(root@),
        RootProbe::Directory(Err(failure)) => Err(io_error(failure)),
    }
}

/// Accepts only an existing directory as a library root.
pub fn canonical_library_root(path: &str, probe: RootProbe) -> (r: Result<String, DaemonError>)
    ensures
        match r {
            Ok(root) => canonical_root(path@, probe) == Ok::<Seq<char>, DaemonErrorView>(root@),
            Err(error) => canonical_root(path@, probe) == Err::<Seq<char>, DaemonErrorView>(error@),
        },
{
    match probe {
        RootProbe::NotDirectory => Err(DaemonError::InvalidLibrary(path.to_owned())),
        RootProbe::Directory(Ok(root)) => Ok(root),
        RootProbe::Directory(Err(failure)) => Err(DaemonError::Io(failure)),
    }
}

/// The refusal to touch an entry that is not one of ours.
pub open spec fn unexpected_path(path: Seq<char>, kind: Seq<char>) -> DaemonErrorView {
    DaemonErrorView::Io {
        kind: IoFailureKind::AlreadyExists,
        message: "refusing to replace unexpected "@ + kind + " path "@ + path,
    }
}

/// Refuses to touch an entry that is not one of ours.
pub fn unexpected_path_error(path: &str, kind: &str) -> (error: DaemonError)
    ensures
        error@ == unexpected_path(path@, kind@),
{
    let mut message = "refusing to replace unexpected ".to_owned();
    message.append(kind);
    message.append(" path ");
    message.append(path);
    DaemonError::Io(IoFailure { kind: IoFailureKind::AlreadyExists, message })
}

/// The socket that a look at a path found, or that there is none.
pub open spec fn identity_seen(entry: Result<PathEntry, IoFailure>) -> Result<
    Option<SocketIdentity>,
    DaemonErrorView,
> {
    match entry {
        Ok(entry) => Ok(
            if entry.kind == EntryKind::Socket {
                Some(entry.identity)
            } else {
                None
            },
        ),
        Err(failure) => if failure.kind == IoFailureKind::NotFound {
            Ok(None)
        } else {
            Err(io_error(failure))
        },
    }
}

/// Tells which socket stands at a path from a look at it.
pub fn socket_identity(entry: Result<PathEntry, IoFailure>) -> (r: Result<
    Option<SocketIdentity>,
    DaemonError,
>)
    ensures
        match r {
            Ok(identity) => identity_seen(entry) == Ok::<Option<SocketIdentity>, DaemonErrorView>(
                identity,
            ),
            Err(error) => identity_seen(entry) == Err::<Option<SocketIdentity>, DaemonErrorView>(
                error@,
            ),
        },
{
    match entry {
        Ok(entry) => if entry.kind == EntryKind::Socket {
            Ok(Some(entry.identity))
        } else {
            Ok(None)
        },
        Err(failure) => if failure.kind == IoFailureKind::NotFound {
            Ok(None)
        } else {
            Err(DaemonError::Io(failure))
        },
    }
}

/// An inspection waiting for one observation.
#[derive(Debug, PartialEq, Eq)]
pub enum SocketProbe {
    /// Look at the path.
    Entry { attempt: u8 },
    /// Connect to the socket that was seen.
    Connect { attempt: u8, identity: SocketIdentity },
    /// Nobody listens: look at the path again.
    Recheck { attempt: u8, identity: SocketIdentity },
    /// The inspection is over.
    Done(Result<SocketInspection, DaemonError>),
}

/// Plain view of an inspection.
pub enum ProbeView {
    Entry { attempt: u8 },
    Connect { attempt: u8, identity: SocketIdentity },
    Recheck { attempt: u8, identity: SocketIdentity },
    Done(Result<SocketInspection, DaemonErrorView>),
}

impl View for SocketProbe {
    type V = ProbeView;

    open spec fn view(&self) -> ProbeView {
        match self {
            SocketProbe::Entry { attempt } => ProbeView::Entry { attempt: *attempt },
            SocketProbe::Connect { attempt, identity } => ProbeView::Connect {
                attempt: *attempt,
                identity: *identity,
            },
            SocketProbe::Recheck { attempt, identity } => ProbeView::Recheck {
                attempt: *attempt,
                identity: *identity,
            },
            SocketProbe::Done(Ok(inspection)) => ProbeView::Done(Ok(*inspection)),
            SocketProbe::Done(Err(error)) => ProbeView::Done(Err(error@)),
        }
    }
}

/// One observation of the outside.
#[derive(Debug, PartialEq, Eq)]
pub enum Observation {
    /// The entry at the path, links not followed.
    Entry(Result<PathEntry, IoFailure>),
    /// A connection attempt.
    Connection(Result<(), IoFailure>),
}

/// The inspection after it looked at the path.
pub open spec fn after_entry(attempt: u8, entry: Result<PathEntry, IoFailure>) -> ProbeView {
    match entry {
        Ok(entry) => if entry.kind == EntryKind::Socket {
            ProbeView::Connect { attempt, identity: entry.identity }
        } else {
            ProbeView::Done(Ok(SocketInspection::UnexpectedPath))
        },
        Err(failure) => if failure.kind == IoFailureKind::NotFound {
            ProbeView::Done(Ok(SocketInspection::Missing))
        } else {
            ProbeView::Done(Err(io_error(failure)))
        },
    }
}

/// The inspection after it tried to connect.
pub open spec fn after_connection(
    attempt: u8,
    identity: SocketIdentity,
    connection: Result<(), IoFailure>,
) -> ProbeView {
    match connection {
        Ok(()) => ProbeView::Done(Ok(SocketInspection::Active)),
        Err(failure) => if failure.kind.is_absent_listener() {
            ProbeView::Recheck { attempt, identity }
        } else {
            ProbeView::Done(Err(io_error(failure)))
        },
    }
}

/// The inspection after it looked again at a socket without a listener.
pub open spec fn after_recheck(
    attempt: u8,
    identity: SocketIdentity,
    entry: Result<PathEntry, IoFailure>,
) -> ProbeView {
    match identity_seen(entry) {
        Err(error) => ProbeView::Done(Err(error)),
        Ok(None) => ProbeView::Done(Ok(SocketInspection::Missing)),
        Ok(Some(current)) => if current == identity {
            ProbeView::Done(Ok(SocketInspection::Stale(identity)))
        } else if attempt + 1 < INSPECTION_ATTEMPTS {
            ProbeView::Entry { attempt: (attempt + 1) as u8 }
        } else {
            ProbeView::Done(
                Err(
                    DaemonErrorView::Io {
                        kind: IoFailureKind::WouldBlock,
                        message: "control socket changed repeatedly during inspection"@,
                    },
                ),
            )
        },
    }
}

/// The inspection after one observation; one of the other kind changes nothing.
pub open spec fn observed(probe: ProbeView, observation: Observation) -> ProbeView {
    match (probe, observation) {
        (ProbeView::Entry { attempt }, Observation::Entry(entry)) => after_entry(attempt, entry),
        (
            ProbeView::Connect { attempt, identity },
            Observation::Connection(connection),
        ) => after_connection(attempt, identity, connection),
        (ProbeView::Recheck { attempt, identity }, Observation::Entry(entry)) => after_recheck(
            attempt,
            identity,
            entry,
        ),
        _ => probe,
    }
}

impl SocketProbe {
    /// Starts an inspection.
    pub fn inspect_socket() -> (probe: SocketProbe)
        ensures
            probe@ == (ProbeView::Entry { attempt: 0 }),
    {
        SocketProbe::Entry { attempt: 0 }
    }

    /// Takes one observation.
    pub fn observe(self, observation: Observation) -> (next: SocketProbe)
        ensures
            next@ == observed(self@, observation),
    {
        match (self, observation) {
            (SocketProbe::Entry { attempt }, Observation::Entry(entry)) => match entry {
                Ok(entry) => if entry.kind == EntryKind::Socket {
                    SocketProbe::Connect { attempt, identity: entry.identity }
                } else {
                    SocketProbe::Done(Ok(SocketInspection::UnexpectedPath))
                },
                Err(failure) => if failure.kind == IoFailureKind::NotFound {
                    SocketProbe::Done(Ok(SocketInspection::Missing))
                } else {
                    SocketProbe::Done(Err(DaemonError::Io(failure)))
                },
            },
            (
                SocketProbe::Connect { attempt, identity },
                Observation::Connection(connection),
            ) => match connection {
                Ok(()) => SocketProbe::Done(Ok(SocketInspection::Active)),
                Err(failure) => if failure.kind.absent_listener() {
                    SocketProbe::Recheck { attempt, identity }
                } else {
                    SocketProbe::Done(Err(DaemonError::Io(failure)))
                },
            },
            (SocketProbe::Recheck { attempt, identity }, Observation::Entry(entry)) =>
                match socket_identity(entry) {
                Err(error) => SocketProbe::Done(Err(error)),
                Ok(None) => SocketProbe::Done(Ok(SocketInspection::Missing)),
                Ok(Some(current)) => if current == identity {
                    SocketProbe::Done(Ok(SocketInspection::Stale(identity)))
                } else if attempt < INSPECTION_ATTEMPTS - 1 {
                    SocketProbe::Entry { attempt: attempt + 1 }
                } else {
                    SocketProbe::Done(
                        Err(
                            DaemonError::Io(
                                IoFailure {
                                    kind: IoFailureKind::WouldBlock,
                                    message:
                                        "control socket changed repeatedly during inspection".to_owned(),
                                },
                            ),
                        ),
                    )
                },
            },
            (probe, _) => probe,
        }
    }
}

/// The state of both sockets, or the first failure to inspect one.
pub open spec fn control_plane(
    daemon: Result<SocketInspection, DaemonErrorView>,
    writer: Result<SocketInspection, DaemonErrorView>,
) -> Result<ControlPlaneState, DaemonErrorView> {
    match (daemon, writer) {
        (Err(error), _) => Err(error),
        (_, Err(error)) => Err(error),
        (Ok(daemon), Ok(writer)) => Ok(
            ControlPlaneState { daemon: daemon.state(), writer: writer.state() },
        ),
    }
}

/// An inspection's result as plain data.
pub open spec fn inspection_view(inspection: Result<SocketInspection, DaemonError>) -> Result<
    SocketInspection,
    DaemonErrorView,
> {
    match inspection {
        Ok(inspection) => Ok(inspection),
        Err(error) => Err(error@),
    }
}

/// Summarizes the inspections of both sockets without naming a path.
pub fn inspect_control_plane(
    daemon: Result<SocketInspection, DaemonError>,
    writer: Result<SocketInspection, DaemonError>,
) -> (r: Result<ControlPlaneState, DaemonError>)
    ensures
        match r {
            Ok(state) => control_plane(inspection_view(daemon), inspection_view(writer)) == Ok::<
                ControlPlaneState,
                DaemonErrorView,
            >(state),
            Err(error) => control_plane(inspection_view(daemon), inspection_view(writer)) == Err::<
                ControlPlaneState,
                DaemonErrorView,
            >(error@),
        },
{
    let daemon = daemon?;
    let writer = writer?;
    Ok(ControlPlaneState { daemon: daemon.public_state(), writer: writer.public_state() })
}

/// Who is refused when a socket answers.
#[derive(Clone, Copy, Debug, PartialEq, Eq, Structural)]
pub enum BusyKind {
    Daemon,
    Writer,
}

/// What a caller that wants to bind a control socket does next.
#[derive(Debug, PartialEq, Eq)]
pub enum BindStep {
    /// Bind the free path.
    Bind,
    /// Confirm and remove the stale socket, then bind.
    Recover(SocketIdentity),
    /// The path is not available.
    Refuse(DaemonError),
}

/// Plain view of a binding decision.
pub enum BindView {
    Bind,
    Recover(SocketIdentity),
    Refuse(DaemonErrorView),
}

impl View for BindStep {
    type V = BindView;

    open spec fn view(&self) -> BindView {
        match self {
            BindStep::Bind => BindView::Bind,
            BindStep::Recover(identity) => BindView::Recover(*identity),
            BindStep::Refuse(error) => BindView::Refuse(error@),
        }
    }
}

/// The error for a socket that answers.
pub open spec fn busy(kind: BusyKind) -> DaemonErrorView {
    match kind {
        BusyKind::Daemon => DaemonErrorView::AlreadyRunning,
        BusyKind::Writer => DaemonErrorView::WriterBusy,
    }
}

pub fn busy_error(kind: BusyKind) -> (error: DaemonError)
    ensures
        error@ == busy(kind),
{
    match kind {
        BusyKind::Daemon => DaemonError::AlreadyRunning,
        BusyKind::Writer => DaemonError::WriterBusy,
    }
}

/// What the inspection of a path means for binding it.
pub open spec fn binding(
    path: Seq<char>,
    kind: BusyKind,
    inspection: Result<SocketInspection, DaemonErrorView>,
) -> BindView {
    match inspection {
        Err(error) => BindView::Refuse(error),
        Ok(SocketInspection::Missing) => BindView::Bind,
        Ok(SocketInspection::Active) => BindView::Refuse(busy(kind)),
        Ok(SocketInspection::UnexpectedPath) => BindView::Refuse(
            unexpected_path(path, "control socket"@),
        ),
        Ok(SocketInspection::Stale(identity)) => BindView::Recover(identity),
    }
}

/// Decides from the inspection of a path whether it may be bound.
pub fn bind_exclusive(
    path: &str,
    kind: BusyKind,
    inspection: Result<SocketInspection, DaemonError>,
) -> (step: BindStep)
    ensures
        step@ == binding(path@, kind, inspection_view(inspection)),
{
    match inspection {
        Err(error) => BindStep::Refuse(error),
        Ok(SocketInspection::Missing) => BindStep::Bind,
        Ok(SocketInspection::Active) => BindStep::Refuse(busy_error(kind)),
        Ok(SocketInspection::UnexpectedPath) => BindStep::Refuse(
            unexpected_path_error(path, "control socket"),
        ),
        Ok(SocketInspection::Stale(identity)) => BindStep::Recover(identity),
    }
}

/// Whether the stale socket may be removed: it must still be the one that was inspected.
pub fn remove_confirmed_stale_socket(
    path: &str,
    expected: SocketIdentity,
    entry: Result<PathEntry, IoFailure>,
) -> (r: Result<(), DaemonError>)
    ensures
        match r {
            Ok(()) => identity_seen(entry) == Ok::<Option<SocketIdentity>, DaemonErrorView>(
                Some(expected),
            ),
            Err(error) => match identity_seen(entry) {
                Err(failure) => error@ == failure,
                Ok(seen) => seen != Some(expected) && error@ == DaemonErrorView::StaleSocket(path@),
            },
        },
{
    match socket_identity(entry) {
        Err(error) => Err(error),
        Ok(Some(current)) => if current == expected {
            Ok(())
        } else {
            Err(DaemonError::StaleSocket(path.to_owned()))
        },
        Ok(None) => Err(DaemonError::StaleSocket(path.to_owned())),
    }
}

/// Whether a guard still owns the entry at its path and so removes it at its end.
pub fn owns_socket(identity: SocketIdentity, entry: Result<PathEntry, IoFailure>) -> (owned: bool)
    ensures
        owned <==> (entry matches Ok(found) && found.kind == EntryKind::Socket && found.identity
            == identity),
{
    match entry {
        Ok(found) => found.kind == EntryKind::Socket && found.identity == identity,
        Err(_) => false,
    }
}

/// What follows from an attempt to create the startup lock.
#[derive(Debug, PartialEq, Eq)]
pub enum LockStep {
    /// It was created; use it.
    UseCreated,
    /// It exists; check the path, then open it.
    OpenExisting,
    /// It could not be created.
    Fail(DaemonError),
}

/// Decides what follows from an attempt to create the startup lock.
pub fn after_lock_creation(created: Result<(), IoFailure>) -> (step: LockStep)
    ensures
        match created {
            Ok(()) => step is UseCreated,
            Err(failure) => if failure.kind == IoFailureKind::AlreadyExists {
                step is OpenExisting
            } else {
                step matches LockStep::Fail(error) && error@ == io_error(failure)
            },
        },
{
    match created {
        Ok(()) => LockStep::UseCreated,
        Err(failure) => if failure.kind == IoFailureKind::AlreadyExists {
            LockStep::OpenExisting
        } else {
            LockStep::Fail(DaemonError::Io(failure))
        },
    }
}

/// Whether an inspection holds a startup lock: one that was never created is not missed.
pub fn existing_lock(opened: Result<(), IoFailure>) -> (r: Result<bool, DaemonError>)
    ensures
        match opened {
            Ok(()) => r == Ok::<bool, DaemonError>(true),
            Err(failure) => if failure.kind == IoFailureKind::NotFound {
                r == Ok::<bool, DaemonError>(false)
            } else {
                r matches Err(error) && error@ == io_error(failure)
            },
        },
{
    match opened {
        Ok(()) => Ok(true),
        Err(failure) => if failure.kind == IoFailureKind::NotFound {
            Ok(false)
        } else {
            Err(DaemonError::Io(failure))
        },
    }
}

/// Refuses a startup lock path that is no regular file.
pub fn reject_unexpected_lock_path(path: &str, entry: Result<PathEntry, IoFailure>) -> (r: Result<
    (),
    DaemonError,
>)
    ensures
        match entry {
            Err(failure) => r matches Err(error) && error@ == io_error(failure),
            Ok(found) => if found.kind == EntryKind::File {
                r is Ok
            } else {
                r matches Err(error) && error@ == unexpected_path(path@, "IPC lock"@)
            },
        },
{
    match entry {
        Err(failure) => Err(DaemonError::Io(failure)),
        Ok(found) => if found.kind == EntryKind::File {
            Ok(())
        } else {
            Err(unexpected_path_error(path, "IPC lock"))
        },
    }
}

/// Refuses an open startup lock that is not the regular file at its path.
pub fn validate_open_lock_file(
    path: &str,
    at_path: Result<PathEntry, IoFailure>,
    open_file: Result<SocketIdentity, IoFailure>,
) -> (r: Result<(), DaemonError>)
    ensures
        match (at_path, open_file) {
            (Err(failure), _) => r matches Err(error) && error@ == io_error(failure),
            (_, Err(failure)) => r matches Err(error) && error@ == io_error(failure),
            (Ok(found), Ok(identity)) => if found.kind == EntryKind::File && found.identity
                == identity {
                r is Ok
            } else {
                r matches Err(error) && error@ == unexpected_path(path@, "IPC lock"@)
            },
        },
{
    let found = match at_path {
        Err(failure) => return Err(DaemonError::Io(failure)),
        Ok(found) => found,
    };
    match open_file {
        Err(failure) => Err(DaemonError::Io(failure)),
        Ok(identity) => if found.kind == EntryKind::File && found.identity == identity {
            Ok(())
        } else {
            Err(unexpected_path_error(path, "IPC lock"))
        },
    }
}

/// What a caller that needs to mutate a library does next.
#[derive(Debug, PartialEq, Eq)]
pub enum AccessStep {
    /// Forward the work to the daemon.
    Daemon,
    /// Try to acquire the writer lease.
    AcquireLease,
    /// Write directly while holding the lease.
    Direct,
    /// Somebody holds the lease: ask once more for a daemon.
    Recheck,
    /// Nothing may be written.
    Fail(DaemonError),
}

/// Plain view of an access decision.
pub enum AccessView {
    Daemon,
    AcquireLease,
    Direct,
    Recheck,
    Fail(DaemonErrorView),
}

impl View for AccessStep {
    type V = AccessView;

    open spec fn view(&self) -> AccessView {
        match self {
            AccessStep::Daemon => AccessView::Daemon,
            AccessStep::AcquireLease => AccessView::AcquireLease,
            AccessStep::Direct => AccessView::Direct,
            AccessStep::Recheck => AccessView::Recheck,
            AccessStep::Fail(error) => AccessView::Fail(error@),
        }
    }
}

/// A liveness answer as plain data.
pub open spec fn running_view(running: Result<bool, DaemonError>) -> Result<bool, DaemonErrorView> {
    match running {
        Ok(running) => Ok(running),
        Err(error) => Err(error@),
    }
}

/// The first step of a writer.
pub open spec fn first_access(running: Result<bool, DaemonErrorView>) -> AccessView {
    match running {
        Ok(running) => if running {
            AccessView::Daemon
        } else {
            AccessView::AcquireLease
        },
        Err(error) => AccessView::Fail(error),
    }
}

/// The step of a writer after it tried to acquire the lease.
pub open spec fn access_after_lease(lease: Result<(), DaemonErrorView>) -> AccessView {
    match lease {
        Ok(()) => AccessView::Direct,
        Err(DaemonErrorView::WriterBusy) => AccessView::Recheck,
        Err(error) => AccessView::Fail(error),
    }
}

/// The last step of a writer that found the lease held.
pub open spec fn access_after_recheck(running: Result<bool, DaemonErrorView>) -> AccessView {
    match running {
        Ok(running) => if running {
            AccessView::Daemon
        } else {
            AccessView::Fail(DaemonErrorView::WriterBusy)
        },
        Err(error) => AccessView::Fail(error),
    }
}

impl AccessStep {
    /// Prefers a daemon that answers over direct ownership.
    pub fn discover(running: Result<bool, DaemonError>) -> (step: AccessStep)
        ensures
            step@ == first_access(running_view(running)),
    {
        match running {
            Ok(true) => AccessStep::Daemon,
            Ok(false) => AccessStep::AcquireLease,
            Err(error) => AccessStep::Fail(error),
        }
    }

    /// Uses the lease; a lease held elsewhere may mean a daemon that just started.
    pub fn with_lease(lease: Result<(), DaemonError>) -> (step: AccessStep)
        ensures
            step@ == access_after_lease(
                match lease {
                    Ok(()) => Ok(()),
                    Err(error) => Err(error@),
                },
            ),
    {
        match lease {
            Ok(()) => AccessStep::Direct,
            Err(DaemonError::WriterBusy) => AccessStep::Recheck,
            Err(error) => AccessStep::Fail(error),
        }
    }

    /// Forwards to a daemon that has started meanwhile, else reports a busy library.
    pub fn rechecked(running: Result<bool, DaemonError>) -> (step: AccessStep)
        ensures
            step@ == access_after_recheck(running_view(running)),
    {
        match running {
            Ok(true) => AccessStep::Daemon,
            Ok(false) => AccessStep::Fail(DaemonError::WriterBusy),
            Err(error) => AccessStep::Fail(error),
        }
    }
}

/// An inspection after a list of observations.
pub open spec fn inspected(probe: ProbeView, observations: Seq<Observation>) -> ProbeView
    decreases observations.len(),
{
    if observations.len() == 0 {
        probe
    } else {
        inspected(observed(probe, observations[0]), observations.drop_first())
    }
}

/// How many more observations an inspection can take.
pub open spec fn probe_rank(probe: ProbeView) -> int {
    match probe {
        ProbeView::Entry { attempt } => 3 * (INSPECTION_ATTEMPTS - attempt),
        ProbeView::Connect { attempt, identity } => 3 * (INSPECTION_ATTEMPTS - attempt) - 1,
        ProbeView::Recheck { attempt, identity } => 3 * (INSPECTION_ATTEMPTS - attempt) - 2,
        ProbeView::Done(_) => 0,
    }
}

/// Whether an inspection waits for an observation of this kind.
pub open spec fn awaited(probe: ProbeView, observation: Observation) -> bool {
    match probe {
        ProbeView::Entry { attempt } => observation is Entry,
        ProbeView::Connect { attempt, identity } => observation is Connection,
        ProbeView::Recheck { attempt, identity } => observation is Entry,
        ProbeView::Done(_) => false,
    }
}

/// The attempt of an inspection lies below the bound.
pub open spec fn probe_in_bound(probe: ProbeView) -> bool {
    match probe {
        ProbeView::Entry { attempt } => attempt < INSPECTION_ATTEMPTS,
        ProbeView::Connect { attempt, identity } => attempt < INSPECTION_ATTEMPTS,
        ProbeView::Recheck { attempt, identity } => attempt < INSPECTION_ATTEMPTS,
        ProbeView::Done(_) => true,
    }
}

/// Every awaited observation brings an inspection nearer to its end, so nine of them
/// end one whatever the filesystem does in between.
pub proof fn law_inspection_is_bounded(probe: ProbeView, observation: Observation)
    requires
        probe_in_bound(probe),
        awaited(probe, observation),
    ensures
        probe_in_bound(observed(probe, observation)),
        0 <= probe_rank(observed(probe, observation)) < probe_rank(probe) <= 9,
        probe_rank(observed(probe, observation)) == 0 <==> observed(probe, observation) is Done,
{
}

/// A finished inspection stays as it is.
pub proof fn law_inspection_ends_once(
    result: Result<SocketInspection, DaemonErrorView>,
    observations: Seq<Observation>,
)
    ensures
        inspected(ProbeView::Done(result), observations) == ProbeView::Done(result),
    decreases observations.len(),
{
    if observations.len() > 0 {
        law_inspection_ends_once(result, observations.drop_first());
    }
}

/// Only a socket that refused a connection and kept its identity is reported stale, and
/// only a path that holds that very socket is released for removal.
pub proof fn law_only_confirmed_sockets_are_stale(
    probe: ProbeView,
    observation: Observation,
    stale: SocketIdentity,
)
    requires
        probe !is Done,
        observed(probe, observation) == ProbeView::Done(
            Ok::<SocketInspection, DaemonErrorView>(SocketInspection::Stale(stale)),
        ),
    ensures
        probe matches ProbeView::Recheck { attempt, identity } && identity == stale,
        observation matches Observation::Entry(Ok(entry)) && entry.kind == EntryKind::Socket
            && entry.identity == stale,
{
}

/// A path that holds anything but a socket is never bound and never removed.
pub proof fn law_unexpected_paths_are_left_alone(
    path: Seq<char>,
    kind: BusyKind,
    attempt: u8,
    entry: PathEntry,
)
    requires
        entry.kind != EntryKind::Socket,
    ensures
        observed(ProbeView::Entry { attempt }, Observation::Entry(Ok(entry))) == ProbeView::Done(
            Ok::<SocketInspection, DaemonErrorView>(SocketInspection::UnexpectedPath),
        ),
        binding(path, kind, Ok(SocketInspection::UnexpectedPath)) is Refuse,
        identity_seen(Ok::<PathEntry, IoFailure>(entry)) == Ok::<
            Option<SocketIdentity>,
            DaemonErrorView,
        >(None),
{
}

/// A writer writes directly only when no daemon answered and the lease was acquired.
pub proof fn law_direct_access_needs_the_lease(
    running: Result<bool, DaemonErrorView>,
    lease: Result<(), DaemonErrorView>,
    again: Result<bool, DaemonErrorView>,
)
    ensures
        first_access(running) !is Direct,
        first_access(running) is AcquireLease <==> running == Ok::<bool, DaemonErrorView>(false),
        access_after_lease(lease) is Direct <==> lease is Ok,
        access_after_recheck(again) !is Direct,
{
}

/// A control socket is bound exactly where nothing stands. One that answers belongs to a
/// running daemon or writer, one that was left behind is recovered first, and anything else is
/// left alone.
pub proof fn law_only_a_free_path_is_bound(
    path: &str,
    kind: BusyKind,
    inspection: Result<SocketInspection, DaemonError>,
    step: BindStep,
)
    requires
        call_ensures(bind_exclusive, (path, kind, inspection), step),
    ensures
        step is Bind <==> inspection == Ok::<SocketInspection, DaemonError>(
            SocketInspection::Missing,
        ),
        step matches BindStep::Recover(identity) ==> inspection == Ok::<
            SocketInspection,
            DaemonError,
        >(SocketInspection::Stale(identity)),
        inspection matches Ok(SocketInspection::Stale(identity)) ==> step is Recover,
        inspection == Ok::<SocketInspection, DaemonError>(SocketInspection::Active) ==> (
        step matches BindStep::Refuse(error) && error@ == match kind {
            BusyKind::Daemon => DaemonErrorView::AlreadyRunning,
            BusyKind::Writer => DaemonErrorView::WriterBusy,
        }),
{
}

/// A socket is removed, or given up by its guard, only while the path still holds that very
/// socket.
pub proof fn law_only_the_same_socket_is_removed(
    path: &str,
    identity: SocketIdentity,
    entry: Result<PathEntry, IoFailure>,
    removed: Result<(), DaemonError>,
    owned: bool,
)
    requires
        call_ensures(remove_confirmed_stale_socket, (path, identity, entry), removed),
        call_ensures(owns_socket, (identity, entry), owned),
    ensures
        removed is Ok <==> (entry matches Ok(found) && found.kind == EntryKind::Socket
            && found.identity == identity),
        owned <==> removed is Ok,
{
}

/// An inspection ends as active only where a connection succeeded, as missing only where
/// nothing, or no socket any more, was seen, and as stale only where nobody listened and the
/// same socket was seen again.
pub proof fn law_inspection_reports_what_it_saw(
    probe: SocketProbe,
    observation: Observation,
    next: SocketProbe,
)
    requires
        call_ensures(SocketProbe::observe, (probe, observation), next),
        probe@ !is Done,
    ensures
        next@ matches ProbeView::Done(Ok(SocketInspection::Active)) ==> probe@ is Connect
            && (observation matches Observation::Connection(connection) && connection is Ok),
        probe@ is Connect && (observation matches Observation::Connection(connection) && connection
            is Ok) ==> next@ == ProbeView::Done(Ok::<SocketInspection, DaemonErrorView>(
            SocketInspection::Active,
        )),
        probe@ matches ProbeView::Connect { attempt, identity } ==> (
        observation matches Observation::Connection(Err(failure)) ==> (next@
            == (ProbeView::Recheck { attempt, identity }) <==> failure.kind
            == IoFailureKind::NotFound || failure.kind == IoFailureKind::ConnectionRefused
            || failure.kind == IoFailureKind::ConnectionReset)),
        probe@ matches ProbeView::Entry { attempt } ==> {
            &&& observation matches Observation::Entry(Ok(entry)) ==> next@ == if entry.kind
                == EntryKind::Socket {
                ProbeView::Connect { attempt, identity: entry.identity }
            } else {
                ProbeView::Done(
                    Ok::<SocketInspection, DaemonErrorView>(SocketInspection::UnexpectedPath),
                )
            }
            &&& observation matches Observation::Entry(Err(failure)) ==> (next@ == ProbeView::Done(
                Ok::<SocketInspection, DaemonErrorView>(SocketInspection::Missing),
            ) <==> failure.kind == IoFailureKind::NotFound)
        },
        probe@ matches ProbeView::Recheck { attempt, identity } ==> {
            &&& observation matches Observation::Entry(Ok(entry)) ==> {
                &&& entry.kind == EntryKind::Socket && entry.identity == identity ==> next@
                    == ProbeView::Done(
                    Ok::<SocketInspection, DaemonErrorView>(SocketInspection::Stale(identity)),
                )
                &&& entry.kind != EntryKind::Socket ==> next@ == ProbeView::Done(
                    Ok::<SocketInspection, DaemonErrorView>(SocketInspection::Missing),
                )
                &&& entry.kind == EntryKind::Socket && entry.identity != identity && attempt < 2
                    ==> next@ == (ProbeView::Entry { attempt: (attempt + 1) as u8 })
            }
            &&& observation matches Observation::Entry(Err(failure)) ==> (next@ == ProbeView::Done(
                Ok::<SocketInspection, DaemonErrorView>(SocketInspection::Missing),
            ) <==> failure.kind == IoFailureKind::NotFound)
        },
{
}

/// Work goes to a daemon that answers; without one it is done directly under the lease. Where
/// the lease is held elsewhere the daemon is asked for once more, and without it the library is
/// busy.
pub proof fn law_there_is_one_writer(
    running: Result<bool, DaemonError>,
    lease: Result<(), DaemonError>,
    first: AccessStep,
    leased: AccessStep,
    again: AccessStep,
)
    requires
        call_ensures(AccessStep::discover, (running,), first),
        call_ensures(AccessStep::with_lease, (lease,), leased),
        call_ensures(AccessStep::rechecked, (running,), again),
    ensures
        first is Daemon <==> running == Ok::<bool, DaemonError>(true),
        first is AcquireLease <==> running == Ok::<bool, DaemonError>(false),
        first is Fail <==> running is Err,
        leased is Direct <==> lease is Ok,
        leased is Recheck <==> (lease matches Err(error) && error@ is WriterBusy),
        leased is Fail <==> (lease matches Err(error) && !(error@ is WriterBusy)),
        again is Daemon <==> running == Ok::<bool, DaemonError>(true),
        again is Fail <==> running != Ok::<bool, DaemonError>(true),
        running == Ok::<bool, DaemonError>(false) ==> (again matches AccessStep::Fail(error)
            && error@ is WriterBusy),
{
}

/// The startup lock is a regular file at its path, and the open file is that one; a lock that
/// exists is opened, one that was never made is not missed.
pub proof fn law_startup_lock_is_the_file_at_its_path(
    path: &str,
    attempt: Result<(), IoFailure>,
    at_path: Result<PathEntry, IoFailure>,
    open_file: Result<SocketIdentity, IoFailure>,
    step: LockStep,
    held: Result<bool, DaemonError>,
    unexpected: Result<(), DaemonError>,
    valid: Result<(), DaemonError>,
)
    requires
        call_ensures(after_lock_creation, (attempt,), step),
        call_ensures(existing_lock, (attempt,), held),
        call_ensures(reject_unexpected_lock_path, (path, at_path), unexpected),
        call_ensures(validate_open_lock_file, (path, at_path, open_file), valid),
    ensures
        step is UseCreated <==> attempt is Ok,
        step is OpenExisting <==> (attempt matches Err(failure) && failure.kind
            == IoFailureKind::AlreadyExists),
        held == Ok::<bool, DaemonError>(true) <==> attempt is Ok,
        held == Ok::<bool, DaemonError>(false) <==> (attempt matches Err(failure) && failure.kind
            == IoFailureKind::NotFound),
        unexpected is Ok <==> (at_path matches Ok(found) && found.kind == EntryKind::File),
        valid is Ok <==> (at_path matches Ok(found) && found.kind == EntryKind::File && open_file
            == Ok::<SocketIdentity, IoFailure>(found.identity)),
{
}

/// A library is where a directory is, under its canonical path; its control files stand in it.
pub proof fn law_control_files_stand_in_the_library(
    path: &str,
    probe: RootProbe,
    root: Result<String, DaemonError>,
    daemon: String,
    writer: String,
    lock: String,
)
    requires
        call_ensures(canonical_library_root, (path, probe), root),
        call_ensures(daemon_socket_path, (path,), daemon),
        call_ensures(writer_socket_path, (path,), writer),
        call_ensures(ipc_lock_path, (path,), lock),
    ensures
        root is Ok <==> (probe matches RootProbe::Directory(found) && found is Ok),
        root matches Ok(given) ==> given@ == probe->Directory_0->Ok_0@,
        probe is NotDirectory ==> (root matches Err(error) && error@
            == DaemonErrorView::InvalidLibrary(path@)),
        path@.len() > 0 && path@.last() != '/' ==> {
            &&& daemon@ == path@ + "/"@ + ".wikisyncd.sock"@
            &&& writer@ == path@ + "/"@ + ".wikisync-writer.sock"@
            &&& lock@ == path@ + "/"@ + ".wikisync-ipc.lock"@
        },
        path@.len() > 0 && path@.last() == '/' ==> daemon@ == path@ + ".wikisyncd.sock"@,
{
}

/// The state of the control plane is that of its two sockets.
pub proof fn law_control_plane_tells_both_sockets(
    daemon: Result<SocketInspection, DaemonError>,
    writer: Result<SocketInspection, DaemonError>,
    r: Result<ControlPlaneState, DaemonError>,
)
    requires
        call_ensures(inspect_control_plane, (daemon, writer), r),
    ensures
        r is Ok <==> daemon is Ok && writer is Ok,
        r matches Ok(state) ==> {
            &&& state.daemon is Missing <==> daemon->Ok_0 is Missing
            &&& state.daemon is Active <==> daemon->Ok_0 is Active
            &&& state.daemon is Stale <==> daemon->Ok_0 is Stale
            &&& state.writer is Missing <==> writer->Ok_0 is Missing
            &&& state.writer is Active <==> writer->Ok_0 is Active
            &&& state.writer is Stale <==> writer->Ok_0 is Stale
        },
{
}

/// A look at a path tells the socket that stands there, and that none does where nothing or
/// something else was seen; any other failure is reported.
pub proof fn law_only_sockets_have_an_identity(
    entry: Result<PathEntry, IoFailure>,
    r: Result<Option<SocketIdentity>, DaemonError>,
)
    requires
        call_ensures(socket_identity, (entry,), r),
    ensures
        entry matches Ok(found) ==> r is Ok && (r->Ok_0 is Some <==> found.kind
            == EntryKind::Socket) && (r->Ok_0 matches Some(identity) ==> identity
            == found.identity),
        entry matches Err(failure) ==> (r is Ok <==> failure.kind is NotFound) && (r is Ok
            ==> r->Ok_0 is None),
{
}

/// Every inspection begins with a first look, and its result is told by kind.
pub proof fn law_inspections_begin_with_a_look(
    probe: SocketProbe,
    inspection: SocketInspection,
    state: LocalSocketState,
)
    requires
        call_ensures(SocketProbe::inspect_socket, (), probe),
        call_ensures(SocketInspection::public_state, (inspection,), state),
    ensures
        probe@ matches ProbeView::Entry { attempt } && attempt == 0,
        state is Missing <==> inspection is Missing,
        state is Active <==> inspection is Active,
        state is Stale <==> inspection is Stale,
        state is UnexpectedPath <==> inspection is UnexpectedPath,
{
}

/// A busy socket means a running daemon or a busy writer, and a foreign entry names its path.
pub proof fn law_refusals_name_what_stands_in_the_way(
    kind: BusyKind,
    busy_with: DaemonError,
    path: &str,
    role: &str,
    refused: DaemonError,
)
    requires
        call_ensures(busy_error, (kind,), busy_with),
        call_ensures(unexpected_path_error, (path, role), refused),
    ensures
        kind is Daemon <==> busy_with@ is AlreadyRunning,
        kind is Writer <==> busy_with@ is WriterBusy,
        refused@ matches DaemonErrorView::Io { kind, message } && kind is AlreadyExists && message
            == "refusing to replace unexpected "@ + role@ + " path "@ + path@,
{
}

} // verus!
