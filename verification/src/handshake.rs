//! The RTMP handshake, seen from the side that owns the socket.

use vstd::prelude::*;
use vstd::string::*;

use crate::link::fault_failure;
use crate::link::duration_text;
use crate::link::FaultModel;
use crate::link::IoFault;
use crate::link::ReadModel;
use crate::link::ReadOutcome;
use crate::link::failure_of_fault;
use crate::link::session_outcome;
use crate::link::timed_out;
use crate::link::timed_out_text;
use crate::text::join2;
use crate::worker::disconnected;
use crate::worker::failed;
use crate::worker::FailureModel;
use crate::worker::SessionFailure;

verus! {

/// Whom the handshake is with.
#[derive(Debug, Clone, Copy, PartialEq, Eq, Structural)]
pub enum Peer {
    /// A server that this side connected to.
    Server,
    /// A peer that connected to this side.
    Publisher,
}

/// The peer in a sentence.
pub open spec fn peer_label(peer: Peer) -> Seq<char> {
    match peer {
        Peer::Server => "RTMP server"@,
        Peer::Publisher => "publisher"@,
    }
}

/// What the protocol made of the bytes it was given.
#[derive(Debug)]
pub enum HandshakeProgress {
    InProgress { response: Vec<u8> },
    Completed { response: Vec<u8>, remaining: Vec<u8> },
}

/// What has just happened.
#[derive(Debug)]
pub enum HandshakeEvent {
    /// The connection is there.
    Connected,
    /// The opening bytes of a client.
    Generated(Vec<u8>),
    /// There are no opening bytes, and why.
    GenerateRefused(String),
    /// What was to be written was written and flushed.
    Wrote,
    /// It could not be written.
    WriteFailed(IoFault),
    /// It could not be flushed.
    FlushFailed(IoFault),
    /// A read ended.
    Read(ReadOutcome),
    /// The protocol took the bytes.
    Processed(HandshakeProgress),
    /// The protocol refused the bytes, and why.
    ProcessRefused(String),
}

/// What to do next.
#[derive(Debug)]
pub enum HandshakeAction {
    /// Make the opening bytes of a client.
    Generate,
    /// Write these bytes and flush.
    Write(Vec<u8>),
    /// Read.
    Read,
    /// Hand these bytes to the protocol.
    Process(Vec<u8>),
    /// Return: the bytes behind the handshake, or why it failed.
    Return(Result<Vec<u8>, SessionFailure>),
}

/// What has just happened, as plain mathematics.
#[verifier::ext_equal]
pub enum EventModel {
    Connected,
    Generated(Seq<u8>),
    GenerateRefused(Seq<char>),
    Wrote,
    WriteFailed(FaultModel),
    FlushFailed(FaultModel),
    Read(ReadModel),
    InProgress(Seq<u8>),
    Completed(Seq<u8>, Seq<u8>),
    ProcessRefused(Seq<char>),
}

impl View for HandshakeEvent {
    type V = EventModel;

    open spec fn view(&self) -> EventModel {
        match self {
            HandshakeEvent::Connected => EventModel::Connected,
            HandshakeEvent::Generated(bytes) => EventModel::Generated(bytes@),
            HandshakeEvent::GenerateRefused(reason) => EventModel::GenerateRefused(reason@),
            HandshakeEvent::Wrote => EventModel::Wrote,
            HandshakeEvent::WriteFailed(fault) => EventModel::WriteFailed(fault@),
            HandshakeEvent::FlushFailed(fault) => EventModel::FlushFailed(fault@),
            HandshakeEvent::Read(outcome) => EventModel::Read(outcome@),
            HandshakeEvent::Processed(HandshakeProgress::InProgress { response }) =>
                EventModel::InProgress(response@),
            HandshakeEvent::Processed(HandshakeProgress::Completed { response, remaining }) =>
                EventModel::Completed(response@, remaining@),
            HandshakeEvent::ProcessRefused(reason) => EventModel::ProcessRefused(reason@),
        }
    }
}

/// What to do next, as plain mathematics.
#[verifier::ext_equal]
pub enum ActionModel {
    Generate,
    Write(Seq<u8>),
    Read,
    Process(Seq<u8>),
    Return(Result<Seq<u8>, FailureModel>),
}

impl View for HandshakeAction {
    type V = ActionModel;

    open spec fn view(&self) -> ActionModel {
        match self {
            HandshakeAction::Generate => ActionModel::Generate,
            HandshakeAction::Write(bytes) => ActionModel::Write(bytes@),
            HandshakeAction::Read => ActionModel::Read,
            HandshakeAction::Process(bytes) => ActionModel::Process(bytes@),
            HandshakeAction::Return(result) => ActionModel::Return(session_outcome(*result)),
        }
    }
}

/// A handshake under way.
#[derive(Debug)]
pub struct HandshakeLoop {
    peer: Peer,
    remaining: Option<Vec<u8>>,
}

/// A handshake under way, as plain mathematics.
#[verifier::ext_equal]
pub struct LoopModel {
    pub peer: Peer,
    /// Once the protocol is done and its last bytes are being written: what
    /// came behind the handshake.
    pub remaining: Option<Seq<u8>>,
}

impl View for HandshakeLoop {
    type V = LoopModel;

    closed spec fn view(&self) -> LoopModel {
        LoopModel {
            peer: self.peer,
            remaining: match self.remaining {
                Some(bytes) => Some(bytes@),
                None => None,
            },
        }
    }
}

/// The texts for a peer that closed and for a handshake that cannot be
/// written or read.
pub open spec fn closed_during_handshake(peer: Peer) -> Seq<char> {
    peer_label(peer) + " closed the connection during handshake"@
}

impl LoopModel {
    /// What a read during the handshake leads to.
    pub open spec fn after_read(self, outcome: ReadModel) -> ActionModel {
        match outcome {
            ReadModel::Cancelled => ActionModel::Return(Err(failed("listener is shutting down"@))),
            ReadModel::TimedOut { nanoseconds } => ActionModel::Return(
                Err(disconnected(timed_out(nanoseconds, " waiting for RTMP handshake input"@))),
            ),
            ReadModel::Failed(fault) => ActionModel::Return(
                Err(
                    fault_failure(
                        fault,
                        closed_during_handshake(self.peer) + ": "@,
                        "failed to read RTMP handshake: "@,
                    ),
                ),
            ),
            ReadModel::Received(bytes) => if bytes.len() == 0 {
                ActionModel::Return(Err(disconnected(closed_during_handshake(self.peer))))
            } else {
                ActionModel::Process(bytes)
            },
        }
    }

    /// The next action and state after an event.
    pub open spec fn step(self, event: EventModel) -> (LoopModel, ActionModel) {
        match event {
            EventModel::Connected => (
                self,
                if self.peer == Peer::Server {
                    ActionModel::Generate
                } else {
                    ActionModel::Read
                },
            ),
            EventModel::Generated(bytes) => (self, ActionModel::Write(bytes)),
            EventModel::GenerateRefused(reason) => (
                self,
                ActionModel::Return(Err(failed("failed to start RTMP handshake: "@ + reason))),
            ),
            EventModel::Wrote => match self.remaining {
                Some(remaining) => (self, ActionModel::Return(Ok(remaining))),
                None => (self, ActionModel::Read),
            },
            EventModel::WriteFailed(fault) => (
                self,
                ActionModel::Return(
                    Err(
                        fault_failure(
                            fault,
                            closed_during_handshake(self.peer) + ": "@,
                            "failed to write RTMP handshake: "@,
                        ),
                    ),
                ),
            ),
            EventModel::FlushFailed(fault) => (
                self,
                ActionModel::Return(Err(failed("failed to write RTMP handshake: "@ + fault.text))),
            ),
            EventModel::Read(outcome) => (self, self.after_read(outcome)),
            EventModel::InProgress(response) => (
                self,
                if response.len() == 0 {
                    ActionModel::Read
                } else {
                    ActionModel::Write(response)
                },
            ),
            EventModel::Completed(response, remaining) => if response.len() == 0 {
                (self, ActionModel::Return(Ok(remaining)))
            } else {
                (
                    LoopModel { remaining: Some(remaining), ..self },
                    ActionModel::Write(response),
                )
            },
            EventModel::ProcessRefused(reason) => (
                self,
                ActionModel::Return(
                    Err(
                        failed(
                            (if self.peer == Peer::Publisher {
                                "publisher handshake failed: "@
                            } else {
                                "RTMP handshake failed: "@
                            }) + reason,
                        ),
                    ),
                ),
            ),
        }
    }
}

impl HandshakeLoop {
    /// The client side of a handshake, before its first byte.
    pub fn client_handshake() -> (handshake: HandshakeLoop)
        ensures
            handshake@ == (LoopModel { peer: Peer::Server, remaining: None }),
    {
        HandshakeLoop { peer: Peer::Server, remaining: None }
    }

    /// The server side of a handshake, before its first byte.
    pub fn server_handshake() -> (handshake: HandshakeLoop)
        ensures
            handshake@ == (LoopModel { peer: Peer::Publisher, remaining: None }),
    {
        HandshakeLoop { peer: Peer::Publisher, remaining: None }
    }

    fn closed_text(&self) -> (text: String)
        ensures
            text@ == closed_during_handshake(self@.peer),
    {
        let label: &str = match self.peer {
            Peer::Server => "RTMP server",
            Peer::Publisher => "publisher",
        };
        join2(label, " closed the connection during handshake")
    }

    fn fault(&self, fault: &IoFault, other: &str) -> (failure: SessionFailure)
        ensures
            failure@ == fault_failure(
                fault@,
                closed_during_handshake(self@.peer) + ": "@,
                other@,
            ),
    {
        let closed: String = self.closed_text();
        let gone: String = join2(closed.as_str(), ": ");
        failure_of_fault(fault, gone.as_str(), other)
    }

    /// Runs the handshake: takes in what happened and says what to do next.
    /// The bytes that came behind the handshake are returned at its end.
    pub fn handshake_loop(&mut self, event: HandshakeEvent) -> (action: HandshakeAction)
        ensures
            (final(self)@, action@) == old(self)@.step(event@),
    {
        match event {
            HandshakeEvent::Connected => match self.peer {
                Peer::Server => HandshakeAction::Generate,
                Peer::Publisher => HandshakeAction::Read,
            },
            HandshakeEvent::Generated(bytes) => HandshakeAction::Write(bytes),
            HandshakeEvent::GenerateRefused(reason) => HandshakeAction::Return(
                Err(
                    SessionFailure::error(
                        join2("failed to start RTMP handshake: ", reason.as_str()),
                    ),
                ),
            ),
            HandshakeEvent::Wrote => match &self.remaining {
                Some(remaining) => HandshakeAction::Return(
                    Ok(vstd::slice::slice_to_vec(remaining.as_slice())),
                ),
                None => HandshakeAction::Read,
            },
            HandshakeEvent::WriteFailed(fault) => HandshakeAction::Return(
                Err(self.fault(&fault, "failed to write RTMP handshake: ")),
            ),
            HandshakeEvent::FlushFailed(fault) => HandshakeAction::Return(
                Err(
                    SessionFailure::error(
                        join2("failed to write RTMP handshake: ", fault.text.as_str()),
                    ),
                ),
            ),
            HandshakeEvent::Read(outcome) => match outcome {
                ReadOutcome::Cancelled => HandshakeAction::Return(
                    Err(SessionFailure::error("listener is shutting down".to_owned())),
                ),
                ReadOutcome::TimedOut { nanoseconds } => HandshakeAction::Return(
                    Err(
                        SessionFailure::disconnect(
                            timed_out_text(nanoseconds, " waiting for RTMP handshake input"),
                        ),
                    ),
                ),
                ReadOutcome::Failed(fault) => HandshakeAction::Return(
                    Err(self.fault(&fault, "failed to read RTMP handshake: ")),
                ),
                ReadOutcome::Received(bytes) => {
                    if bytes.len() == 0 {
                        HandshakeAction::Return(
                            Err(SessionFailure::disconnect(self.closed_text())),
                        )
                    } else {
                        HandshakeAction::Process(bytes)
                    }
                },
            },
            HandshakeEvent::Processed(HandshakeProgress::InProgress { response }) => {
                if response.len() == 0 {
                    HandshakeAction::Read
                } else {
                    HandshakeAction::Write(response)
                }
            },
            HandshakeEvent::Processed(HandshakeProgress::Completed { response, remaining }) => {
                if response.len() == 0 {
                    HandshakeAction::Return(Ok(remaining))
                } else {
                    self.remaining = Some(remaining);
                    HandshakeAction::Write(response)
                }
            },
            HandshakeEvent::ProcessRefused(reason) => {
                let text: String = match self.peer {
                    Peer::Publisher => join2("publisher handshake failed: ", reason.as_str()),
                    Peer::Server => join2("RTMP handshake failed: ", reason.as_str()),
                };
                HandshakeAction::Return(Err(SessionFailure::error(text)))
            },
        }
    }
}

/// A peer that goes away before or during the handshake is a disconnect right
/// away: the loop neither reads on nor calls it an error.
pub proof fn law_vanished_peer_is_a_disconnect(handshake: LoopModel, outcome: ReadModel)
    requires
        match outcome {
            ReadModel::Received(bytes) => bytes.len() == 0,
            ReadModel::TimedOut { nanoseconds } => true,
            ReadModel::Failed(fault) => crate::worker::peer_gone(fault.kind),
            ReadModel::Cancelled => false,
        },
    ensures
        handshake.step(EventModel::Read(outcome)).1 matches ActionModel::Return(Err(failure))
            && failure.client_disconnect,
{
}

/// The handshake returns the bytes that came behind it, once its last answer
/// was written.
pub proof fn law_bytes_behind_the_handshake_are_kept(
    handshake: LoopModel,
    response: Seq<u8>,
    remaining: Seq<u8>,
)
    ensures
        ({
            let (later, action) = handshake.step(EventModel::Completed(response, remaining));
            if response.len() == 0 {
                action == ActionModel::Return(Ok(remaining))
            } else {
                action == ActionModel::Write(response) && later.step(EventModel::Wrote).1
                    == ActionModel::Return(Ok(remaining))
            }
        }),
{
}

/// Only the client side opens: towards a server the opening bytes are made and
/// written as they are, towards a peer that connected the first thing is to
/// read.
pub proof fn law_client_speaks_first(handshake: LoopModel, bytes: Seq<u8>, reason: Seq<char>)
    ensures
        handshake.step(EventModel::Connected).1 == match handshake.peer {
            Peer::Server => ActionModel::Generate,
            Peer::Publisher => ActionModel::Read,
        },
        handshake.step(EventModel::Generated(bytes)).1 == ActionModel::Write(bytes),
        handshake.step(EventModel::GenerateRefused(reason)).1 == ActionModel::Return(
            Err(
                FailureModel {
                    message: "failed to start RTMP handshake: "@ + reason,
                    client_disconnect: false,
                },
            ),
        ),
{
}

/// Every byte that is read goes to the protocol and every byte that the protocol
/// answers is written, unchanged, until it is done; then, and only then, the
/// handshake succeeds.
pub proof fn law_handshake_passes_every_byte_on(handshake: LoopModel, bytes: Seq<u8>)
    requires
        bytes.len() > 0,
        handshake.remaining is None,
    ensures
        handshake.step(EventModel::Read(ReadModel::Received(bytes))) == (
            handshake,
            ActionModel::Process(bytes),
        ),
        handshake.step(EventModel::InProgress(bytes)) == (handshake, ActionModel::Write(bytes)),
        handshake.step(EventModel::InProgress(Seq::empty())) == (handshake, ActionModel::Read),
        handshake.step(EventModel::Wrote) == (handshake, ActionModel::Read),
{
}

/// A handshake succeeds only once the protocol says that it is complete.
pub proof fn law_only_completion_succeeds(handshake: LoopModel, event: EventModel)
    ensures
        handshake.step(event).1 matches ActionModel::Return(Ok(_)) ==> event is Completed || (
        event is Wrote && handshake.remaining is Some),
        handshake.step(event).0.peer == handshake.peer,
        !(event is Completed) ==> handshake.step(event).0.remaining == handshake.remaining,
{
}

/// Each way in which a handshake fails has its own words; a peer that is gone is
/// blamed, whatever went wrong, except by a flush.
pub proof fn law_failed_handshakes_tell_why(
    handshake: LoopModel,
    nanoseconds: u64,
    kind: std::io::ErrorKind,
    text: Seq<char>,
)
    ensures
        ({
            let fails = |message: Seq<char>, vanished: bool|
                ActionModel::Return(
                    Err::<Seq<u8>, FailureModel>(
                        FailureModel { message, client_disconnect: vanished },
                    ),
                );
            let closed = (match handshake.peer {
                Peer::Server => "RTMP server"@,
                Peer::Publisher => "publisher"@,
            }) + " closed the connection during handshake"@;
            let gone = kind is ConnectionReset || kind is ConnectionAborted
                || kind is UnexpectedEof || kind is BrokenPipe || kind is TimedOut;
            let fault = FaultModel { kind, text };
            &&& handshake.step(EventModel::Read(ReadModel::Received(Seq::empty()))).1 == fails(
                closed,
                true,
            )
            &&& handshake.step(EventModel::Read(ReadModel::Cancelled)).1 == fails(
                "listener is shutting down"@,
                false,
            )
            &&& handshake.step(EventModel::Read(ReadModel::TimedOut { nanoseconds })).1 == fails(
                "timed out after "@ + duration_text(nanoseconds)
                    + " waiting for RTMP handshake input"@,
                true,
            )
            &&& handshake.step(EventModel::Read(ReadModel::Failed(fault))).1 == if gone {
                fails(closed + ": "@ + text, true)
            } else {
                fails("failed to read RTMP handshake: "@ + text, false)
            }
            &&& handshake.step(EventModel::WriteFailed(fault)).1 == if gone {
                fails(closed + ": "@ + text, true)
            } else {
                fails("failed to write RTMP handshake: "@ + text, false)
            }
            &&& handshake.step(EventModel::FlushFailed(fault)).1 == fails(
                "failed to write RTMP handshake: "@ + text,
                false,
            )
            &&& handshake.step(EventModel::ProcessRefused(text)).1 == fails(
                (match handshake.peer {
                    Peer::Server => "RTMP handshake failed: "@,
                    Peer::Publisher => "publisher handshake failed: "@,
                }) + text,
                false,
            )
        }),
{
}

/// What happens during a handshake and what is to be done are told as they are.
pub proof fn law_handshake_events_show_their_fields(
    bytes: Vec<u8>,
    rest: Vec<u8>,
    text: String,
    fault: IoFault,
    outcome: ReadOutcome,
)
    ensures
        HandshakeEvent::Generated(bytes)@ == EventModel::Generated(bytes@),
        HandshakeEvent::GenerateRefused(text)@ == EventModel::GenerateRefused(text@),
        HandshakeEvent::Wrote@ == EventModel::Wrote,
        HandshakeEvent::Connected@ == EventModel::Connected,
        HandshakeEvent::WriteFailed(fault)@ == EventModel::WriteFailed(fault@),
        HandshakeEvent::FlushFailed(fault)@ == EventModel::FlushFailed(fault@),
        HandshakeEvent::Read(outcome)@ == EventModel::Read(outcome@),
        HandshakeEvent::Processed(HandshakeProgress::InProgress { response: bytes })@
            == EventModel::InProgress(bytes@),
        HandshakeEvent::Processed(
            HandshakeProgress::Completed { response: bytes, remaining: rest },
        )@ == EventModel::Completed(bytes@, rest@),
        HandshakeEvent::ProcessRefused(text)@ == EventModel::ProcessRefused(text@),
        HandshakeAction::Write(bytes)@ == ActionModel::Write(bytes@),
        HandshakeAction::Process(bytes)@ == ActionModel::Process(bytes@),
        HandshakeAction::Return(Ok(bytes))@ == ActionModel::Return(Ok(bytes@)),
        HandshakeAction::Generate@ == ActionModel::Generate,
        HandshakeAction::Read@ == ActionModel::Read,
{
}

} // verus!
