//! What socket trouble means: reads, writes, connects and the handshake.

use vstd::prelude::*;
use vstd::string::*;

use crate::text::join2;
use crate::text::join3;
use crate::worker::disconnected;
use crate::worker::failed;
use crate::worker::is_client_io_error;
use crate::worker::peer_gone;
use crate::worker::FailureModel;
use crate::worker::SessionFailure;

verus! {

/// How a span of nanoseconds is written for people.
pub uninterp spec fn duration_text(nanoseconds: u64) -> Seq<char>;

/// Calls the `Debug` formatting of `std::time::Duration` on a span of
/// nanoseconds. The text depends on the span alone; its form is not stated.
#[verifier::external_body]
pub(crate) fn show_duration(nanoseconds: u64) -> (text: String)
    ensures
        text@ == duration_text(nanoseconds),
{
    format!("{:?}", std::time::Duration::from_nanos(nanoseconds))
}

/// An I/O error: its kind and its text.
#[derive(Debug)]
pub struct IoFault {
    pub kind: std::io::ErrorKind,
    pub text: String,
}

/// An I/O error, as plain mathematics.
#[verifier::ext_equal]
pub struct FaultModel {
    pub kind: std::io::ErrorKind,
    pub text: Seq<char>,
}

impl View for IoFault {
    type V = FaultModel;

    open spec fn view(&self) -> FaultModel {
        FaultModel { kind: self.kind, text: self.text@ }
    }
}

/// How a read ended. No bytes means that the peer closed the connection.
#[derive(Debug)]
pub enum ReadOutcome {
    Received(Vec<u8>),
    Cancelled,
    TimedOut { nanoseconds: u64 },
    Failed(IoFault),
}

/// How a read ended, as plain mathematics.
#[verifier::ext_equal]
pub enum ReadModel {
    Received(Seq<u8>),
    Cancelled,
    TimedOut { nanoseconds: u64 },
    Failed(FaultModel),
}

impl View for ReadOutcome {
    type V = ReadModel;

    open spec fn view(&self) -> ReadModel {
        match self {
            ReadOutcome::Received(bytes) => ReadModel::Received(bytes@),
            ReadOutcome::Cancelled => ReadModel::Cancelled,
            ReadOutcome::TimedOut { nanoseconds } => ReadModel::TimedOut {
                nanoseconds: *nanoseconds,
            },
            ReadOutcome::Failed(fault) => ReadModel::Failed(fault@),
        }
    }
}

/// How a write or a flush ended.
#[derive(Debug)]
pub enum WriteOutcome {
    Done,
    TimedOut { nanoseconds: u64 },
    Failed(IoFault),
}

/// How a write or a flush ended, as plain mathematics.
#[verifier::ext_equal]
pub enum WriteModel {
    Done,
    TimedOut { nanoseconds: u64 },
    Failed(FaultModel),
}

impl View for WriteOutcome {
    type V = WriteModel;

    open spec fn view(&self) -> WriteModel {
        match self {
            WriteOutcome::Done => WriteModel::Done,
            WriteOutcome::TimedOut { nanoseconds } => WriteModel::TimedOut {
                nanoseconds: *nanoseconds,
            },
            WriteOutcome::Failed(fault) => WriteModel::Failed(fault@),
        }
    }
}

/// A result with a failure, over the views of both.
pub open spec fn session_outcome<T: View>(result: Result<T, SessionFailure>) -> Result<
    T::V,
    FailureModel,
> {
    match result {
        Ok(value) => Ok(value@),
        Err(failure) => Err(failure@),
    }
}

/// The failure of an I/O error: a vanished peer is a disconnect with one text,
/// anything else an error with another; the error's own text follows.
pub open spec fn fault_failure(fault: FaultModel, gone: Seq<char>, other: Seq<char>) -> FailureModel {
    if peer_gone(fault.kind) {
        disconnected(gone + fault.text)
    } else {
        failed(other + fault.text)
    }
}

/// The failure of an I/O error.
pub(crate) fn failure_of_fault(fault: &IoFault, gone: &str, other: &str) -> (failure: SessionFailure)
    ensures
        failure@ == fault_failure(fault@, gone@, other@),
{
    if is_client_io_error(fault.kind) {
        SessionFailure::disconnect(join2(gone, fault.text.as_str()))
    } else {
        SessionFailure::error(join2(other, fault.text.as_str()))
    }
}

/// A time limit in a sentence.
pub open spec fn timed_out(nanoseconds: u64, doing: Seq<char>) -> Seq<char> {
    "timed out after "@ + duration_text(nanoseconds) + doing
}

/// A time limit in a sentence.
pub(crate) fn timed_out_text(nanoseconds: u64, doing: &str) -> (text: String)
    ensures
        text@ == timed_out(nanoseconds, doing@),
{
    let limit: String = show_duration(nanoseconds);
    join3("timed out after ", limit.as_str(), doing)
}

/// What a session read comes to.
pub open spec fn session_read(outcome: ReadModel) -> Result<Seq<u8>, FailureModel> {
    match outcome {
        ReadModel::Received(bytes) => Ok(bytes),
        ReadModel::Cancelled => Err(failed("worker is shutting down"@)),
        ReadModel::TimedOut { nanoseconds } => Err(
            disconnected(timed_out(nanoseconds, " waiting for RTMP input"@)),
        ),
        ReadModel::Failed(fault) => Err(
            fault_failure(fault, "RTMP connection lost: "@, "failed to read RTMP input: "@),
        ),
    }
}

/// What a session read comes to. Every session read of every client and
/// server goes through this, so EOF, timeout and a vanished peer mean the same
/// everywhere.
pub fn read_session_chunk(outcome: ReadOutcome) -> (chunk: Result<Vec<u8>, SessionFailure>)
    ensures
        session_outcome(chunk) == session_read(outcome@),
{
    match outcome {
        ReadOutcome::Received(bytes) => Ok(bytes),
        ReadOutcome::Cancelled => Err(SessionFailure::error("worker is shutting down".to_owned())),
        ReadOutcome::TimedOut { nanoseconds } => Err(
            SessionFailure::disconnect(timed_out_text(nanoseconds, " waiting for RTMP input")),
        ),
        ReadOutcome::Failed(fault) => Err(
            failure_of_fault(&fault, "RTMP connection lost: ", "failed to read RTMP input: "),
        ),
    }
}

/// How an attempt to connect ended.
#[derive(Debug)]
pub enum ConnectOutcome {
    Connected,
    TimedOut { nanoseconds: u64 },
    Refused(String),
    NoDelayFailed(String),
}

/// What an attempt to connect comes to.
pub open spec fn connect_outcome_failure(outcome: ConnectOutcome) -> Option<FailureModel> {
    match outcome {
        ConnectOutcome::Connected => None,
        ConnectOutcome::TimedOut { nanoseconds } => Some(
            disconnected(timed_out(nanoseconds, " connecting to RTMP server"@)),
        ),
        ConnectOutcome::Refused(text) => Some(
            disconnected("failed to connect to RTMP server: "@ + text@),
        ),
        ConnectOutcome::NoDelayFailed(text) => Some(
            failed("Failed to configure TCP_NODELAY: "@ + text@),
        ),
    }
}

/// What an attempt to connect comes to. A server that cannot be reached counts
/// as vanished.
pub fn tcp_connect(outcome: ConnectOutcome) -> (connected: Result<(), SessionFailure>)
    ensures
        match connected {
            Ok(_) => connect_outcome_failure(outcome) is None,
            Err(failure) => connect_outcome_failure(outcome) == Some(failure@),
        },
{
    match outcome {
        ConnectOutcome::Connected => Ok(()),
        ConnectOutcome::TimedOut { nanoseconds } => Err(
            SessionFailure::disconnect(timed_out_text(nanoseconds, " connecting to RTMP server")),
        ),
        ConnectOutcome::Refused(text) => Err(
            SessionFailure::disconnect(join2("failed to connect to RTMP server: ", text.as_str())),
        ),
        ConnectOutcome::NoDelayFailed(text) => Err(
            SessionFailure::error(join2("Failed to configure TCP_NODELAY: ", text.as_str())),
        ),
    }
}

/// Why a TLS handshake with a peer that connected to us failed.
#[derive(Debug)]
pub enum TlsAcceptFault {
    TimedOut { nanoseconds: u64 },
    Failed(String),
}

/// What is said of a failed TLS handshake.
pub open spec fn tls_accept_text(fault: TlsAcceptFault) -> Seq<char> {
    match fault {
        TlsAcceptFault::TimedOut { nanoseconds } => timed_out(
            nanoseconds,
            " waiting for the TLS handshake"@,
        ),
        TlsAcceptFault::Failed(text) => "TLS handshake failed: "@ + text@,
    }
}

/// What is said of a failed TLS handshake with a peer that connected to us.
pub fn accept_tls_server(fault: &TlsAcceptFault) -> (text: String)
    ensures
        text@ == tls_accept_text(*fault),
{
    match fault {
        TlsAcceptFault::TimedOut { nanoseconds } => timed_out_text(
            *nanoseconds,
            " waiting for the TLS handshake",
        ),
        TlsAcceptFault::Failed(text) => join2("TLS handshake failed: ", text.as_str()),
    }
}

/// What a connection writes, for the texts of its failures.
#[derive(Debug, Clone, Copy, PartialEq, Eq, Structural)]
pub enum Traffic {
    /// Packets of a client session.
    Request,
    /// Packets of a server session.
    Response,
    /// Media for a player.
    Media,
}

/// What a write that went wrong comes to.
pub open spec fn write_failure(traffic: Traffic, outcome: WriteModel) -> Option<FailureModel> {
    let (slow, gone, other) = match traffic {
        Traffic::Request => (
            " writing RTMP request"@,
            "RTMP connection lost while writing: "@,
            "failed to write RTMP request: "@,
        ),
        Traffic::Response => (
            " writing RTMP response"@,
            "RTMP connection lost while writing: "@,
            "failed to write RTMP response: "@,
        ),
        Traffic::Media => (
            " writing RTMP media"@,
            "RTMP player went away while writing: "@,
            "failed to write RTMP media: "@,
        ),
    };
    match outcome {
        WriteModel::Done => None,
        WriteModel::TimedOut { nanoseconds } => Some(disconnected(timed_out(nanoseconds, slow))),
        WriteModel::Failed(fault) => Some(fault_failure(fault, gone, other)),
    }
}

/// What a write that went wrong comes to.
fn failure_of_write(traffic: Traffic, outcome: WriteOutcome) -> (failure: Option<SessionFailure>)
    ensures
        match failure {
            Some(failure) => write_failure(traffic, outcome@) == Some(failure@),
            None => write_failure(traffic, outcome@) is None,
        },
{
    let (slow, gone, other): (&str, &str, &str) = match traffic {
        Traffic::Request => (
            " writing RTMP request",
            "RTMP connection lost while writing: ",
            "failed to write RTMP request: ",
        ),
        Traffic::Response => (
            " writing RTMP response",
            "RTMP connection lost while writing: ",
            "failed to write RTMP response: ",
        ),
        Traffic::Media => (
            " writing RTMP media",
            "RTMP player went away while writing: ",
            "failed to write RTMP media: ",
        ),
    };
    match outcome {
        WriteOutcome::Done => None,
        WriteOutcome::TimedOut { nanoseconds } => Some(
            SessionFailure::disconnect(timed_out_text(nanoseconds, slow)),
        ),
        WriteOutcome::Failed(fault) => Some(failure_of_fault(&fault, gone, other)),
    }
}

/// Where a packet writer is.
#[derive(Debug, Clone, Copy, PartialEq, Eq, Structural)]
pub enum WriteStage {
    /// Nothing was written yet.
    Fresh,
    /// A packet is being written.
    Writing,
    /// Everything was written and is being flushed.
    Flushing,
}

/// Packets on their way to a socket: each is written once, in order, and the
/// socket is flushed once after the last.
#[derive(Debug)]
pub struct PacketWriter {
    traffic: Traffic,
    stage: WriteStage,
    packets: Vec<Vec<u8>>,
}

/// A packet writer, as plain mathematics.
#[verifier::ext_equal]
pub struct WriterModel {
    pub traffic: Traffic,
    pub stage: WriteStage,
    pub packets: Seq<Seq<u8>>,
}

/// The bytes of several packets.
pub open spec fn packet_models(packets: Seq<Vec<u8>>) -> Seq<Seq<u8>> {
    packets.map_values(|packet: Vec<u8>| packet@)
}

impl View for PacketWriter {
    type V = WriterModel;

    closed spec fn view(&self) -> WriterModel {
        WriterModel {
            traffic: self.traffic,
            stage: self.stage,
            packets: packet_models(self.packets@),
        }
    }
}

/// What a packet writer asks for next.
#[derive(Debug)]
pub enum WriteStep {
    /// Write this packet whole.
    Write { packet: Vec<u8>, writer: PacketWriter },
    /// Flush.
    Flush { writer: PacketWriter },
    /// Nothing is left to do.
    Over(Result<(), SessionFailure>),
}

/// What a packet writer asks for next, as plain mathematics.
#[verifier::ext_equal]
pub enum WriteStepModel {
    Write { packet: Seq<u8>, writer: WriterModel },
    Flush { writer: WriterModel },
    Over(Option<FailureModel>),
}

impl View for WriteStep {
    type V = WriteStepModel;

    open spec fn view(&self) -> WriteStepModel {
        match self {
            WriteStep::Write { packet, writer } => WriteStepModel::Write {
                packet: packet@,
                writer: writer@,
            },
            WriteStep::Flush { writer } => WriteStepModel::Flush { writer: writer@ },
            WriteStep::Over(result) => WriteStepModel::Over(
                match result {
                    Ok(_) => None,
                    Err(failure) => Some(failure@),
                },
            ),
        }
    }
}

impl WriterModel {
    /// What comes next, once the write or flush under way went so.
    pub open spec fn next(self, outcome: WriteModel) -> WriteStepModel {
        if self.stage != WriteStage::Fresh && write_failure(self.traffic, outcome) is Some {
            WriteStepModel::Over(write_failure(self.traffic, outcome))
        } else if self.stage == WriteStage::Flushing {
            WriteStepModel::Over(None)
        } else if self.packets.len() > 0 {
            WriteStepModel::Write {
                packet: self.packets[0],
                writer: WriterModel {
                    stage: WriteStage::Writing,
                    packets: self.packets.drop_first(),
                    ..self
                },
            }
        } else if self.stage == WriteStage::Writing {
            WriteStepModel::Flush { writer: WriterModel { stage: WriteStage::Flushing, ..self } }
        } else {
            WriteStepModel::Over(None)
        }
    }
}

impl PacketWriter {
    /// A writer that has all its packets before it.
    pub fn new(traffic: Traffic, packets: Vec<Vec<u8>>) -> (writer: PacketWriter)
        ensures
            writer@ == (WriterModel {
                traffic,
                stage: WriteStage::Fresh,
                packets: packet_models(packets@),
            }),
    {
        PacketWriter { traffic, stage: WriteStage::Fresh, packets }
    }

    /// Takes in how the write or flush under way went (at first, nothing is
    /// under way) and says what comes next.
    pub fn next(self, outcome: WriteOutcome) -> (step: WriteStep)
        ensures
            step@ == self@.next(outcome@),
    {
        if self.stage != WriteStage::Fresh {
            if let Some(failure) = failure_of_write(self.traffic, outcome) {
                return WriteStep::Over(Err(failure));
            }
        }
        let traffic: Traffic = self.traffic;
        let stage: WriteStage = self.stage;
        let mut packets: Vec<Vec<u8>> = self.packets;
        if stage == WriteStage::Flushing {
            return WriteStep::Over(Ok(()));
        }
        if packets.len() > 0 {
            let packet: Vec<u8> = packets.remove(0);
            let writer = PacketWriter { traffic, stage: WriteStage::Writing, packets };
            assert(writer@.packets =~= self@.packets.drop_first());
            return WriteStep::Write { packet, writer };
        }
        if stage == WriteStage::Writing {
            return WriteStep::Flush {
                writer: PacketWriter { traffic, stage: WriteStage::Flushing, packets },
            };
        }
        WriteStep::Over(Ok(()))
    }
}

/// Every timeout counts as a vanished peer, whatever was waited for.
pub proof fn law_timeouts_count_as_vanished(nanoseconds: u64, traffic: Traffic)
    ensures
        session_read(ReadModel::TimedOut { nanoseconds }) matches Err(failure)
            && failure.client_disconnect,
        write_failure(traffic, WriteModel::TimedOut { nanoseconds }) matches Some(failure)
            && failure.client_disconnect,
        connect_outcome_failure(ConnectOutcome::TimedOut { nanoseconds }) matches Some(failure)
            && failure.client_disconnect,
{
}

/// A killed peer counts as vanished on read and on write, and an I/O error of
/// any other kind does not.
pub proof fn law_io_errors_tell_vanished_peers(fault: FaultModel, traffic: Traffic)
    ensures
        session_read(ReadModel::Failed(fault)) matches Err(failure) && failure.client_disconnect
            == peer_gone(fault.kind),
        write_failure(traffic, WriteModel::Failed(fault)) matches Some(failure)
            && failure.client_disconnect == peer_gone(fault.kind),
{
}

/// What reaches the socket while a writer runs: its packets, and `None` for a
/// flush; with how it ends, once it does.
pub open spec fn written(writer: WriterModel, outcomes: Seq<WriteModel>) -> (
    Seq<Option<Seq<u8>>>,
    Option<Option<FailureModel>>,
)
    decreases outcomes.len(),
{
    if outcomes.len() == 0 {
        (Seq::empty(), None)
    } else {
        match writer.next(outcomes[0]) {
            WriteStepModel::Over(end) => (Seq::empty(), Some(end)),
            WriteStepModel::Write { packet, writer } => {
                let (later, end) = written(writer, outcomes.drop_first());
                (seq![Some(packet)] + later, end)
            },
            WriteStepModel::Flush { writer } => {
                let (later, end) = written(writer, outcomes.drop_first());
                (seq![None::<Seq<u8>>] + later, end)
            },
        }
    }
}

/// When nothing goes wrong, every packet is written once, in order, and one
/// flush follows the last; without packets nothing is written or flushed.
pub proof fn law_packets_are_written_in_order_and_flushed_once(
    writer: WriterModel,
    outcomes: Seq<WriteModel>,
)
    requires
        writer.stage != WriteStage::Flushing,
        forall|i: int| 0 <= i < outcomes.len() ==> outcomes[i] == WriteModel::Done,
        outcomes.len() >= writer.packets.len() + 2,
    ensures
        written(writer, outcomes) == (
            writer.packets.map_values(|packet: Seq<u8>| Some(packet)) + if writer.packets.len() > 0
                || writer.stage == WriteStage::Writing {
                seq![None::<Seq<u8>>]
            } else {
                Seq::empty()
            },
            Some(None::<FailureModel>),
        ),
    decreases writer.packets.len(),
{
    let packets = writer.packets;
    let listed = packets.map_values(|packet: Seq<u8>| Some(packet));
    let later = outcomes.drop_first();
    if packets.len() > 0 {
        let rest = WriterModel {
            stage: WriteStage::Writing,
            packets: packets.drop_first(),
            ..writer
        };
        law_packets_are_written_in_order_and_flushed_once(rest, later);
        assert(seq![Some(packets[0])] + rest.packets.map_values(|packet: Seq<u8>| Some(packet))
            =~= listed);
        assert(written(writer, outcomes).0 =~= listed + seq![None::<Seq<u8>>]);
    } else if writer.stage == WriteStage::Writing {
        let flushing = WriterModel { stage: WriteStage::Flushing, ..writer };
        assert(written(flushing, later) == (
            Seq::<Option<Seq<u8>>>::empty(),
            Some(None::<FailureModel>),
        ));
        assert(written(writer, outcomes).0 =~= listed + seq![None::<Seq<u8>>]);
    } else {
        assert(written(writer, outcomes).0 =~= listed + Seq::<Option<Seq<u8>>>::empty());
    }
}

/// What is read is handed on byte for byte, and a read that ends otherwise
/// fails with its reason: a request to stop is nobody's fault, a timeout and a
/// reset, aborted, ended or broken connection are the peer's, and any other
/// error is not.
pub proof fn law_reads_end_as_they_went(
    bytes: Seq<u8>,
    nanoseconds: u64,
    kind: std::io::ErrorKind,
    text: Seq<char>,
)
    ensures
        session_read(ReadModel::Received(bytes)) == Ok::<Seq<u8>, FailureModel>(bytes),
        session_read(ReadModel::Cancelled) == Err::<Seq<u8>, FailureModel>(
            FailureModel { message: "worker is shutting down"@, client_disconnect: false },
        ),
        session_read(ReadModel::TimedOut { nanoseconds }) == Err::<Seq<u8>, FailureModel>(
            FailureModel {
                message: "timed out after "@ + duration_text(nanoseconds)
                    + " waiting for RTMP input"@,
                client_disconnect: true,
            },
        ),
        session_read(ReadModel::Failed(FaultModel { kind, text })) == Err::<Seq<u8>, FailureModel>(
            if kind is ConnectionReset || kind is ConnectionAborted || kind is UnexpectedEof
                || kind is BrokenPipe || kind is TimedOut {
                FailureModel {
                    message: "RTMP connection lost: "@ + text,
                    client_disconnect: true,
                }
            } else {
                FailureModel {
                    message: "failed to read RTMP input: "@ + text,
                    client_disconnect: false,
                }
            },
        ),
{
}

/// A connect succeeds exactly if it connected.
pub proof fn law_only_connecting_succeeds(outcome: ConnectOutcome)
    ensures
        connect_outcome_failure(outcome) is None <==> outcome is Connected,
        outcome is TimedOut || outcome is Refused ==> connect_outcome_failure(
            outcome,
        )->Some_0.client_disconnect,
        outcome is NoDelayFailed ==> !connect_outcome_failure(outcome)->Some_0.client_disconnect,
{
}

/// What is said of a failed TLS handshake holds its reason.
pub proof fn law_tls_accept_texts(nanoseconds: u64, text: String)
    ensures
        tls_accept_text(TlsAcceptFault::TimedOut { nanoseconds }) == "timed out after "@
            + duration_text(nanoseconds) + " waiting for the TLS handshake"@,
        tls_accept_text(TlsAcceptFault::Failed(text)) == "TLS handshake failed: "@ + text@,
{
}

/// A write that is done is no failure; one that is not fails with its reason, in
/// the words of what was written, and blames a peer that is gone.
pub proof fn law_writes_end_as_they_went(
    traffic: Traffic,
    nanoseconds: u64,
    kind: std::io::ErrorKind,
    text: Seq<char>,
)
    ensures
        write_failure(traffic, WriteModel::Done) is None,
        write_failure(traffic, WriteModel::TimedOut { nanoseconds }) == Some(
            FailureModel {
                message: "timed out after "@ + duration_text(nanoseconds) + match traffic {
                    Traffic::Request => " writing RTMP request"@,
                    Traffic::Response => " writing RTMP response"@,
                    Traffic::Media => " writing RTMP media"@,
                },
                client_disconnect: true,
            },
        ),
        write_failure(traffic, WriteModel::Failed(FaultModel { kind, text })) == Some(
            if kind is ConnectionReset || kind is ConnectionAborted || kind is UnexpectedEof
                || kind is BrokenPipe || kind is TimedOut {
                FailureModel {
                    message: match traffic {
                        Traffic::Media => "RTMP player went away while writing: "@,
                        _ => "RTMP connection lost while writing: "@,
                    } + text,
                    client_disconnect: true,
                }
            } else {
                FailureModel {
                    message: match traffic {
                        Traffic::Request => "failed to write RTMP request: "@,
                        Traffic::Response => "failed to write RTMP response: "@,
                        Traffic::Media => "failed to write RTMP media: "@,
                    } + text,
                    client_disconnect: false,
                }
            },
        ),
{
}

/// The first write or flush that goes wrong ends the writing with its failure:
/// nothing is written behind it.
pub proof fn law_writing_stops_at_the_first_failure(
    writer: WriterModel,
    nanoseconds: u64,
    fault: FaultModel,
)
    requires
        writer.stage != WriteStage::Fresh,
    ensures
        writer.next(WriteModel::TimedOut { nanoseconds }) matches WriteStepModel::Over(Some(_)),
        writer.next(WriteModel::Failed(fault)) matches WriteStepModel::Over(Some(_)),
        writer.next(WriteModel::TimedOut { nanoseconds }) == WriteStepModel::Over(
            write_failure(writer.traffic, WriteModel::TimedOut { nanoseconds }),
        ),
        writer.next(WriteModel::Failed(fault)) == WriteStepModel::Over(
            write_failure(writer.traffic, WriteModel::Failed(fault)),
        ),
{
}

/// How a read or a write ended is told as it was: its bytes, its limit, the kind
/// and the text of its error.
pub proof fn law_outcomes_show_their_fields(
    bytes: Vec<u8>,
    nanoseconds: u64,
    fault: IoFault,
)
    ensures
        ReadOutcome::Received(bytes)@ == ReadModel::Received(bytes@),
        ReadOutcome::Cancelled@ == ReadModel::Cancelled,
        (ReadOutcome::TimedOut { nanoseconds })@ == (ReadModel::TimedOut { nanoseconds }),
        ReadOutcome::Failed(fault)@ == ReadModel::Failed(
            FaultModel { kind: fault.kind, text: fault.text@ },
        ),
        WriteOutcome::Done@ == WriteModel::Done,
        (WriteOutcome::TimedOut { nanoseconds })@ == (WriteModel::TimedOut { nanoseconds }),
        WriteOutcome::Failed(fault)@ == WriteModel::Failed(
            FaultModel { kind: fault.kind, text: fault.text@ },
        ),
{
}

/// What a packet writer asks for next is told as it is, and its packets are the
/// bytes that it was given, in order.
pub proof fn law_writers_show_their_fields(
    packet: Vec<u8>,
    writer: PacketWriter,
    failure: SessionFailure,
    packets: Seq<Vec<u8>>,
)
    ensures
        (WriteStep::Write { packet, writer })@ == (WriteStepModel::Write {
            packet: packet@,
            writer: writer@,
        }),
        (WriteStep::Flush { writer })@ == (WriteStepModel::Flush { writer: writer@ }),
        WriteStep::Over(Ok(()))@ == WriteStepModel::Over(None),
        WriteStep::Over(Err(failure))@ == WriteStepModel::Over(Some(failure@)),
        session_outcome(Ok::<Vec<u8>, SessionFailure>(packet)) == Ok::<Seq<u8>, FailureModel>(
            packet@,
        ),
        session_outcome(Err::<Vec<u8>, SessionFailure>(failure)) == Err::<Seq<u8>, FailureModel>(
            failure@,
        ),
        packet_models(packets).len() == packets.len(),
        forall|i: int| 0 <= i < packets.len() ==> #[trigger] packet_models(packets)[i]
            == packets[i]@,
{
}

} // verus!
