//! What a worker tells its element: outputs, failures, lifecycle ids.

use vstd::prelude::*;
use vstd::string::*;

verus! {

/// Buffers that wait between worker and source element.
pub const OUTPUT_QUEUE_CAPACITY: usize = 1;

/// Buffers that wait between sink element and worker.
pub const DATA_QUEUE_CAPACITY: usize = 128;

/// Milliseconds between two looks at the flushing flag while the source waits.
pub const CREATE_POLL_MILLIS: u64 = 100;

/// Milliseconds between two looks at the flushing flag while the sink waits.
pub const SEND_POLL_MILLIS: u64 = 100;

/// Milliseconds allowed for a worker to report that it is ready.
pub const WORKER_START_MILLIS: u64 = 2000;

/// Milliseconds between two attempts to play.
pub const RECONNECT_DELAY_MILLIS: u64 = 500;

/// One message from a worker to its source element.
#[derive(Debug)]
pub enum WorkerOutput {
    Data(Vec<u8>),
    PublishStarted { connection_id: u64 },
    PublishEnded { connection_id: u64, reason: String },
    Warning(String),
    Error(String),
    Eos,
    Wake,
}

/// A worker's message, as plain mathematics.
#[verifier::ext_equal]
pub enum OutputModel {
    Data(Seq<u8>),
    PublishStarted { connection_id: u64 },
    PublishEnded { connection_id: u64, reason: Seq<char> },
    Warning(Seq<char>),
    Error(Seq<char>),
    Eos,
    Wake,
}

impl View for WorkerOutput {
    type V = OutputModel;

    open spec fn view(&self) -> OutputModel {
        match self {
            WorkerOutput::Data(bytes) => OutputModel::Data(bytes@),
            WorkerOutput::PublishStarted { connection_id } => OutputModel::PublishStarted {
                connection_id: *connection_id,
            },
            WorkerOutput::PublishEnded { connection_id, reason } => OutputModel::PublishEnded {
                connection_id: *connection_id,
                reason: reason@,
            },
            WorkerOutput::Warning(text) => OutputModel::Warning(text@),
            WorkerOutput::Error(text) => OutputModel::Error(text@),
            WorkerOutput::Eos => OutputModel::Eos,
            WorkerOutput::Wake => OutputModel::Wake,
        }
    }
}

/// Failure from serving one RTMP connection: a message for the pipeline or
/// log, and whether the peer vanished, so that listening or reconnecting goes
/// on instead of failing.
#[derive(Debug)]
pub struct SessionFailure {
    pub message: String,
    pub client_disconnect: bool,
}

/// A failure, as plain mathematics.
#[verifier::ext_equal]
pub struct FailureModel {
    pub message: Seq<char>,
    pub client_disconnect: bool,
}

impl View for SessionFailure {
    type V = FailureModel;

    open spec fn view(&self) -> FailureModel {
        FailureModel { message: self.message@, client_disconnect: self.client_disconnect }
    }
}

/// The peer vanished.
pub open spec fn disconnected(message: Seq<char>) -> FailureModel {
    FailureModel { message, client_disconnect: true }
}

/// Something else went wrong.
pub open spec fn failed(message: Seq<char>) -> FailureModel {
    FailureModel { message, client_disconnect: false }
}

impl SessionFailure {
    /// A failure because the peer vanished.
    pub fn disconnect(message: String) -> (failure: SessionFailure)
        ensures
            failure@ == disconnected(message@),
    {
        SessionFailure { message, client_disconnect: true }
    }

    /// Any other failure.
    pub fn error(message: String) -> (failure: SessionFailure)
        ensures
            failure@ == failed(message@),
    {
        SessionFailure { message, client_disconnect: false }
    }
}

/// The ids of publish and play sessions.
///
/// `next` hands out a fresh id on every publish so ids stay unique across
/// connections; `current` is the id of the live publish, 0 before there is
/// one, so that its end can be reported after the session closes.
#[derive(Debug, Clone, Copy, PartialEq, Eq, Structural)]
pub struct PublishIds {
    pub next: u64,
    pub current: u64,
}

impl PublishIds {
    /// The ids of the first connection.
    pub fn first() -> (ids: PublishIds)
        ensures
            ids == (PublishIds { next: 1, current: 0 }),
    {
        PublishIds { next: 1, current: 0 }
    }

    /// The ids of the connection after this one: nothing is live yet, and no
    /// id is handed out twice.
    pub fn following(&self) -> (ids: PublishIds)
        ensures
            ids == (PublishIds { next: self.next, current: 0 }),
    {
        PublishIds { next: self.next, current: 0 }
    }

    /// Hands out the next id and makes it the live one. After the largest id
    /// comes 0.
    pub fn start(&mut self) -> (id: u64)
        ensures
            id == old(self).next,
            *final(self) == old(self).started(),
    {
        let id: u64 = self.next;
        self.next = id.wrapping_add(1);
        self.current = id;
        id
    }

    /// The ids once the next one is live.
    pub open spec fn started(self) -> PublishIds {
        PublishIds {
            next: if self.next == u64::MAX {
                0
            } else {
                (self.next + 1) as u64
            },
            current: self.next,
        }
    }
}

/// The report that a publish ended.
pub fn publish_end(connection_id: u64, reason: &str) -> (output: WorkerOutput)
    ensures
        output@ == (OutputModel::PublishEnded { connection_id, reason: reason@ }),
{
    WorkerOutput::PublishEnded { connection_id, reason: reason.to_owned() }
}

/// The span of so many nanoseconds.
pub uninterp spec fn nanos_duration(nanos: u64) -> std::time::Duration;

/// `std::time::Duration::from_nanos` makes the span of so many nanoseconds,
/// which depends on the number alone.
pub assume_specification[ std::time::Duration::from_nanos ](nanos: u64) -> (span:
    std::time::Duration)
    ensures
        span == nanos_duration(nanos),
;

/// A time limit in nanoseconds; 0 means none.
pub open spec fn limit_of(nanoseconds: u64) -> Option<std::time::Duration> {
    if nanoseconds != 0 {
        Some(nanos_duration(nanoseconds))
    } else {
        None
    }
}

/// A time limit in nanoseconds; 0 means none.
pub fn nanoseconds_timeout(nanoseconds: u64) -> (limit: Option<std::time::Duration>)
    ensures
        limit == limit_of(nanoseconds),
{
    if nanoseconds != 0 {
        Some(std::time::Duration::from_nanos(nanoseconds))
    } else {
        None
    }
}

/// The kinds of I/O errors, with their variants.
#[verifier::external_type_specification]
pub struct ExErrorKind(std::io::ErrorKind);

/// Whether an I/O error of this kind says that the peer is gone.
pub open spec fn peer_gone(kind: std::io::ErrorKind) -> bool {
    ||| kind is ConnectionAborted
    ||| kind is ConnectionReset
    ||| kind is UnexpectedEof
    ||| kind is BrokenPipe
    ||| kind is TimedOut
}

/// True when the socket ended because the peer vanished rather than because
/// this element misbehaved. A killed peer surfaces as reset, abort or EOF on
/// read or as a broken pipe on the next write; a timeout also counts as
/// vanished.
pub fn is_client_io_error(kind: std::io::ErrorKind) -> (gone: bool)
    ensures
        gone == peer_gone(kind),
{
    match kind {
        std::io::ErrorKind::ConnectionAborted
        | std::io::ErrorKind::ConnectionReset
        | std::io::ErrorKind::UnexpectedEof
        | std::io::ErrorKind::BrokenPipe
        | std::io::ErrorKind::TimedOut => true,
        _ => false,
    }
}

/// Ids are handed out one after the other, never 0 until they wrap, and the one
/// handed out last is the live one; the next connection starts with none live
/// and goes on counting.
pub proof fn law_ids_count_up(ids: PublishIds)
    ensures
        ids.started().current == ids.next,
        ids.next < u64::MAX ==> ids.started().next == ids.next + 1,
        ids.next == u64::MAX ==> ids.started().next == 0,
{
}

/// A time limit of 0 is none, and every other number of nanoseconds is a limit
/// of exactly that long.
pub proof fn law_zero_means_no_limit(nanoseconds: u64)
    ensures
        nanoseconds == 0 ==> limit_of(nanoseconds) is None,
        nanoseconds > 0 ==> limit_of(nanoseconds) == Some(nanos_duration(nanoseconds)),
{
}

/// A peer is gone if the connection was reset or aborted, ended early, broke or
/// timed out, and by no other kind of error: not if it was refused, not found or
/// not permitted, was busy or interrupted, or is in use.
pub proof fn law_kinds_of_vanished_peers(kind: std::io::ErrorKind)
    ensures
        kind is ConnectionReset ==> peer_gone(kind),
        kind is ConnectionAborted ==> peer_gone(kind),
        kind is UnexpectedEof ==> peer_gone(kind),
        kind is BrokenPipe ==> peer_gone(kind),
        kind is TimedOut ==> peer_gone(kind),
        peer_gone(kind) ==> kind is ConnectionReset || kind is ConnectionAborted
            || kind is UnexpectedEof || kind is BrokenPipe || kind is TimedOut,
{
}

/// A failure either blames a vanished peer or does not, and keeps its words.
pub proof fn law_failures_keep_their_words(message: Seq<char>, failure: SessionFailure)
    ensures
        disconnected(message) == (FailureModel { message, client_disconnect: true }),
        failed(message) == (FailureModel { message, client_disconnect: false }),
        failure@.message == failure.message@,
        failure@.client_disconnect == failure.client_disconnect,
{
}

/// What a worker tells is what the element hears: every message keeps its kind,
/// its bytes, its text and its id.
pub proof fn law_outputs_show_their_fields(bytes: Vec<u8>, id: u64, text: String)
    ensures
        WorkerOutput::Data(bytes)@ == OutputModel::Data(bytes@),
        (WorkerOutput::PublishStarted { connection_id: id })@ == (OutputModel::PublishStarted {
            connection_id: id,
        }),
        (WorkerOutput::PublishEnded { connection_id: id, reason: text })@ == (
        OutputModel::PublishEnded { connection_id: id, reason: text@ }),
        WorkerOutput::Warning(text)@ == OutputModel::Warning(text@),
        WorkerOutput::Error(text)@ == OutputModel::Error(text@),
        WorkerOutput::Eos@ == OutputModel::Eos,
        WorkerOutput::Wake@ == OutputModel::Wake,
{
}

/// How long things may take and how much may wait: a worker has two seconds to
/// report, a source pauses half a second before it plays again, both elements
/// look every tenth of a second whether the pipeline flushes, one buffer waits on
/// its way out of a worker and 128 on their way in.
pub proof fn law_waits_and_queues_have_their_sizes()
    ensures
        WORKER_START_MILLIS == 2_000,
        RECONNECT_DELAY_MILLIS == 500,
        CREATE_POLL_MILLIS == 100,
        SEND_POLL_MILLIS == 100,
        OUTPUT_QUEUE_CAPACITY == 1,
        DATA_QUEUE_CAPACITY == 128,
{
}

} // verus!
