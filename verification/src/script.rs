//! Scripts: the calls that one decision leads to, in order, with what each
//! failure means.
//!
//! The library decides; whoever owns the sockets performs. A decision comes as
//! a [`Script`], and [`ScriptRun`] walks it: it hands out one call at a time,
//! takes in how the call went, and says how the whole ended.

use vstd::prelude::*;
use vstd::string::*;

use crate::flv::FlvTag;
use crate::flv::TagModel;
use crate::text::join3;
use crate::worker::failed;
use crate::worker::FailureModel;
use crate::worker::OutputModel;
use crate::worker::SessionFailure;
use crate::worker::WorkerOutput;

verus! {

/// Something to do for a connection.
#[derive(Debug)]
pub enum Call {
    /// Hand an output to the element; the session ends if nobody takes it.
    Send(WorkerOutput),
    /// Hand an output to the element if somebody takes it.
    Offer(WorkerOutput),
    /// Ask everything that belongs to the worker to stop.
    Cancel,
    /// Remember that this peer was turned away.
    MarkRejected,
    /// Write one packet that the protocol session produced, then flush.
    Write(Vec<u8>),
    /// Write one packet to a player, then flush.
    WriteMedia(Vec<u8>),
    /// Accept a connection, with the advertised capabilities, and write the
    /// reply.
    AcceptConnection { request_id: u32 },
    /// Accept a publish request and write the reply.
    AcceptPublish { request_id: u32 },
    /// Accept a play request, with the advertised capabilities, and write the
    /// reply.
    AcceptPlay { request_id: u32 },
    /// Turn a request down and write the reply.
    Reject { request_id: u32, code: String, description: String },
    /// Ask the server for a connection to an application, with the advertised
    /// capabilities, and write the request.
    RequestConnection { app: String },
    /// Ask the server to play a stream and write the request.
    RequestPlayback { stream_key: String },
    /// Ask the server to take a live stream and write the request.
    RequestPublish { stream_key: String },
    /// Turn a tag into a publish message, to be written later.
    Publish(FlvTag),
    /// Write the publish messages made so far, then flush.
    WritePublished,
    /// Stop publishing and write what that takes.
    StopPublishing,
    /// Frame a tag for a player and write it, then flush.
    Serve { stream_id: u32, tag: FlvTag },
    /// Tell a player that the stream is over and write what that takes.
    FinishPlaying { stream_id: u32 },
    /// Close the sending side of the connection.
    ShutDown,
    /// Wait for the peer to close, at most so many nanoseconds.
    AwaitClose { nanoseconds: u64 },
    /// Answer whoever waits for the worker to start.
    ReportStarted,
}

/// A call, as plain mathematics.
#[verifier::ext_equal]
pub enum CallModel {
    Send(OutputModel),
    Offer(OutputModel),
    Cancel,
    MarkRejected,
    Write(Seq<u8>),
    WriteMedia(Seq<u8>),
    AcceptConnection { request_id: u32 },
    AcceptPublish { request_id: u32 },
    AcceptPlay { request_id: u32 },
    Reject { request_id: u32, code: Seq<char>, description: Seq<char> },
    RequestConnection { app: Seq<char> },
    RequestPlayback { stream_key: Seq<char> },
    RequestPublish { stream_key: Seq<char> },
    Publish(TagModel),
    WritePublished,
    StopPublishing,
    Serve { stream_id: u32, tag: TagModel },
    FinishPlaying { stream_id: u32 },
    ShutDown,
    AwaitClose { nanoseconds: u64 },
    ReportStarted,
}

impl View for Call {
    type V = CallModel;

    open spec fn view(&self) -> CallModel {
        match self {
            Call::Send(output) => CallModel::Send(output@),
            Call::Offer(output) => CallModel::Offer(output@),
            Call::Cancel => CallModel::Cancel,
            Call::MarkRejected => CallModel::MarkRejected,
            Call::Write(packet) => CallModel::Write(packet@),
            Call::WriteMedia(packet) => CallModel::WriteMedia(packet@),
            Call::AcceptConnection { request_id } => CallModel::AcceptConnection {
                request_id: *request_id,
            },
            Call::AcceptPublish { request_id } => CallModel::AcceptPublish {
                request_id: *request_id,
            },
            Call::AcceptPlay { request_id } => CallModel::AcceptPlay { request_id: *request_id },
            Call::Reject { request_id, code, description } => CallModel::Reject {
                request_id: *request_id,
                code: code@,
                description: description@,
            },
            Call::RequestConnection { app } => CallModel::RequestConnection { app: app@ },
            Call::RequestPlayback { stream_key } => CallModel::RequestPlayback {
                stream_key: stream_key@,
            },
            Call::RequestPublish { stream_key } => CallModel::RequestPublish {
                stream_key: stream_key@,
            },
            Call::Publish(tag) => CallModel::Publish(tag@),
            Call::WritePublished => CallModel::WritePublished,
            Call::StopPublishing => CallModel::StopPublishing,
            Call::Serve { stream_id, tag } => CallModel::Serve { stream_id: *stream_id, tag: tag@ },
            Call::FinishPlaying { stream_id } => CallModel::FinishPlaying {
                stream_id: *stream_id,
            },
            Call::ShutDown => CallModel::ShutDown,
            Call::AwaitClose { nanoseconds } => CallModel::AwaitClose {
                nanoseconds: *nanoseconds,
            },
            Call::ReportStarted => CallModel::ReportStarted,
        }
    }
}

/// How a call went.
#[derive(Debug)]
pub enum Outcome {
    /// It was done.
    Done,
    /// Nobody takes outputs or reports any more.
    Closed,
    /// The protocol session refused, with its reason.
    Refused(String),
    /// What the call produced could not be written.
    WriteFailed(SessionFailure),
}

/// How a call went, as plain mathematics.
#[verifier::ext_equal]
pub enum OutcomeModel {
    Done,
    Closed,
    Refused(Seq<char>),
    WriteFailed(FailureModel),
}

impl View for Outcome {
    type V = OutcomeModel;

    open spec fn view(&self) -> OutcomeModel {
        match self {
            Outcome::Done => OutcomeModel::Done,
            Outcome::Closed => OutcomeModel::Closed,
            Outcome::Refused(reason) => OutcomeModel::Refused(reason@),
            Outcome::WriteFailed(failure) => OutcomeModel::WriteFailed(failure@),
        }
    }
}

/// What to make of a call that did not go well.
#[derive(Debug)]
pub struct Policy {
    /// What is said when nobody takes the output or report; `None` if that
    /// does not matter.
    pub closed: Option<String>,
    /// What is said, before the reason, when the session refuses; `None` if
    /// that does not matter.
    pub refused: Option<String>,
    /// What becomes of a failed write.
    pub on_write: OnWrite,
}

/// What becomes of a failed write.
#[derive(Debug, Clone, Copy, PartialEq, Eq, Structural)]
pub enum OnWrite {
    /// It fails the script as it is.
    Fail,
    /// It fails the script, and not because the peer vanished.
    FailAsError,
    /// Nothing.
    Ignore,
}

/// A policy, as plain mathematics.
#[verifier::ext_equal]
pub struct PolicyModel {
    pub closed: Option<Seq<char>>,
    pub refused: Option<Seq<char>>,
    pub on_write: OnWrite,
}

impl View for Policy {
    type V = PolicyModel;

    open spec fn view(&self) -> PolicyModel {
        PolicyModel {
            closed: crate::text::opt_text(self.closed),
            refused: crate::text::opt_text(self.refused),
            on_write: self.on_write,
        }
    }
}

impl PolicyModel {
    /// The failure that an outcome amounts to, if any.
    pub open spec fn failure(self, outcome: OutcomeModel) -> Option<FailureModel> {
        match outcome {
            OutcomeModel::Done => None,
            OutcomeModel::Closed => match self.closed {
                Some(text) => Some(failed(text)),
                None => None,
            },
            OutcomeModel::Refused(reason) => match self.refused {
                Some(text) => Some(failed(text + ": "@ + reason)),
                None => None,
            },
            OutcomeModel::WriteFailed(failure) => match self.on_write {
                OnWrite::Fail => Some(failure),
                OnWrite::FailAsError => Some(failed(failure.message)),
                OnWrite::Ignore => None,
            },
        }
    }
}

impl Policy {
    /// The failure that an outcome amounts to, if any.
    pub fn failure(&self, outcome: Outcome) -> (failure: Option<SessionFailure>)
        ensures
            match failure {
                Some(failure) => self@.failure(outcome@) == Some(failure@),
                None => self@.failure(outcome@) is None,
            },
    {
        match outcome {
            Outcome::Done => None,
            Outcome::Closed => match &self.closed {
                Some(text) => Some(SessionFailure::error(text.clone())),
                None => None,
            },
            Outcome::Refused(reason) => match &self.refused {
                Some(text) => Some(
                    SessionFailure::error(join3(text.as_str(), ": ", reason.as_str())),
                ),
                None => None,
            },
            Outcome::WriteFailed(failure) => match self.on_write {
                OnWrite::Fail => Some(failure),
                OnWrite::FailAsError => Some(SessionFailure::error(failure.message)),
                OnWrite::Ignore => None,
            },
        }
    }
}

/// One call of a script.
#[derive(Debug)]
pub struct Op {
    pub call: Call,
    pub policy: Policy,
}

/// One call of a script, as plain mathematics.
#[verifier::ext_equal]
pub struct OpModel {
    pub call: CallModel,
    pub policy: PolicyModel,
}

impl View for Op {
    type V = OpModel;

    open spec fn view(&self) -> OpModel {
        OpModel { call: self.call@, policy: self.policy@ }
    }
}

/// What is said when the element no longer takes outputs.
pub open spec fn shutting_down() -> Seq<char> {
    "listener is shutting down"@
}

/// An output that must be taken.
pub open spec fn send(output: OutputModel) -> OpModel {
    OpModel {
        call: CallModel::Send(output),
        policy: PolicyModel {
            closed: Some(shutting_down()),
            refused: None,
            on_write: OnWrite::Ignore,
        },
    }
}

/// A call whose outcome does not matter.
pub open spec fn anyway(call: CallModel) -> OpModel {
    OpModel {
        call,
        policy: PolicyModel { closed: None, refused: None, on_write: OnWrite::Ignore },
    }
}

/// A call on the protocol session, what is said if it refuses, and what
/// becomes of a failed write.
pub open spec fn ask(call: CallModel, refused: Seq<char>, on_write: OnWrite) -> OpModel {
    OpModel { call, policy: PolicyModel { closed: None, refused: Some(refused), on_write } }
}

/// A packet that must be written.
pub open spec fn write_out(packet: Seq<u8>) -> OpModel {
    OpModel {
        call: CallModel::Write(packet),
        policy: PolicyModel { closed: None, refused: None, on_write: OnWrite::Fail },
    }
}

impl Op {
    /// An output that must be taken.
    pub fn send(output: WorkerOutput) -> (op: Op)
        ensures
            op@ == send(output@),
    {
        Op {
            call: Call::Send(output),
            policy: Policy {
                closed: Some("listener is shutting down".to_owned()),
                refused: None,
                on_write: OnWrite::Ignore,
            },
        }
    }

    /// A call whose outcome does not matter.
    pub fn anyway(call: Call) -> (op: Op)
        ensures
            op@ == anyway(call@),
    {
        Op { call, policy: Policy { closed: None, refused: None, on_write: OnWrite::Ignore } }
    }

    /// A call on the protocol session, what is said if it refuses, and what
    /// becomes of a failed write.
    pub fn ask(call: Call, refused: &str, on_write: OnWrite) -> (op: Op)
        ensures
            op@ == ask(call@, refused@, on_write),
    {
        Op { call, policy: Policy { closed: None, refused: Some(refused.to_owned()), on_write } }
    }

    /// A packet that must be written.
    pub fn write(packet: Vec<u8>) -> (op: Op)
        ensures
            op@ == write_out(packet@),
    {
        Op {
            call: Call::Write(packet),
            policy: Policy { closed: None, refused: None, on_write: OnWrite::Fail },
        }
    }
}

/// What follows once every call of a script was made.
#[derive(Debug)]
pub enum Conclusion {
    /// The session goes on.
    Continue,
    /// The session is over, as it should be.
    Finished,
    /// The session is over, and not as it should be.
    Failed(SessionFailure),
    /// The peer plays this stream now.
    Playing { stream_id: u32 },
    /// The peer was turned away.
    TurnedAway,
}

/// What follows a script, as plain mathematics.
#[verifier::ext_equal]
pub enum ConclusionModel {
    Continue,
    Finished,
    Failed(FailureModel),
    Playing { stream_id: u32 },
    TurnedAway,
}

impl View for Conclusion {
    type V = ConclusionModel;

    open spec fn view(&self) -> ConclusionModel {
        match self {
            Conclusion::Continue => ConclusionModel::Continue,
            Conclusion::Finished => ConclusionModel::Finished,
            Conclusion::Failed(failure) => ConclusionModel::Failed(failure@),
            Conclusion::Playing { stream_id } => ConclusionModel::Playing { stream_id: *stream_id },
            Conclusion::TurnedAway => ConclusionModel::TurnedAway,
        }
    }
}

/// Calls to make in order, and what follows if none of them fails.
#[derive(Debug)]
pub struct Script {
    pub ops: Vec<Op>,
    pub conclusion: Conclusion,
}

/// A script, as plain mathematics.
#[verifier::ext_equal]
pub struct ScriptModel {
    pub ops: Seq<OpModel>,
    pub conclusion: ConclusionModel,
}

/// The calls of a list, as models.
pub open spec fn op_models(ops: Seq<Op>) -> Seq<OpModel> {
    ops.map_values(|op: Op| op@)
}

impl View for Script {
    type V = ScriptModel;

    open spec fn view(&self) -> ScriptModel {
        ScriptModel { ops: op_models(self.ops@), conclusion: self.conclusion@ }
    }
}

/// Nothing to do, and the session goes on.
pub open spec fn nothing() -> ScriptModel {
    ScriptModel { ops: Seq::empty(), conclusion: ConclusionModel::Continue }
}

impl Script {
    /// A script without calls.
    pub fn ending(conclusion: Conclusion) -> (script: Script)
        ensures
            script@ == (ScriptModel { ops: Seq::empty(), conclusion: conclusion@ }),
    {
        let script = Script { ops: Vec::new(), conclusion };
        assert(script@.ops =~= Seq::<OpModel>::empty());
        script
    }

    /// A script that goes on after one call.
    pub fn one(op: Op) -> (script: Script)
        ensures
            script@ == (ScriptModel { ops: seq![op@], conclusion: ConclusionModel::Continue }),
    {
        let mut script: Script = Script::ending(Conclusion::Continue);
        script.push(op);
        assert(script@.ops =~= seq![op@]);
        script
    }

    /// Adds a call at the end.
    pub fn push(&mut self, op: Op)
        ensures
            final(self)@ == (ScriptModel { ops: old(self)@.ops.push(op@), ..old(self)@ }),
    {
        let ghost before = self@.ops;
        self.ops.push(op);
        assert(self@.ops =~= before.push(op@));
    }
}

/// A script under way.
#[derive(Debug)]
pub struct ScriptRun {
    current: Option<Policy>,
    rest: Vec<Op>,
    conclusion: Conclusion,
}

/// A script under way, as plain mathematics.
#[verifier::ext_equal]
pub struct RunModel {
    /// What to make of the call that is being made.
    pub current: Option<PolicyModel>,
    /// The calls that come after it.
    pub rest: Seq<OpModel>,
    /// What follows if none of them fails.
    pub conclusion: ConclusionModel,
}

/// What a script asks for next.
#[derive(Debug)]
pub enum Progress {
    /// Make this call, then go on with the rest.
    Perform { call: Call, run: ScriptRun },
    /// The script is over: its conclusion, or the failure that cut it short.
    Over(Conclusion),
}

/// What a script asks for next, as plain mathematics.
#[verifier::ext_equal]
pub enum ProgressModel {
    Perform { call: CallModel, run: RunModel },
    Over(ConclusionModel),
}

impl View for ScriptRun {
    type V = RunModel;

    closed spec fn view(&self) -> RunModel {
        RunModel {
            current: match self.current {
                Some(policy) => Some(policy@),
                None => None,
            },
            rest: op_models(self.rest@),
            conclusion: self.conclusion@,
        }
    }
}

impl View for Progress {
    type V = ProgressModel;

    open spec fn view(&self) -> ProgressModel {
        match self {
            Progress::Perform { call, run } => ProgressModel::Perform { call: call@, run: run@ },
            Progress::Over(conclusion) => ProgressModel::Over(conclusion@),
        }
    }
}

impl RunModel {
    /// A script before its first call.
    pub open spec fn of(script: ScriptModel) -> RunModel {
        RunModel { current: None, rest: script.ops, conclusion: script.conclusion }
    }

    /// The failure that cuts the script short, if the call under way went so.
    pub open spec fn failure(self, outcome: OutcomeModel) -> Option<FailureModel> {
        match self.current {
            Some(policy) => policy.failure(outcome),
            None => None,
        }
    }

    /// What comes next, once the call under way went so.
    pub open spec fn next(self, outcome: OutcomeModel) -> ProgressModel {
        match self.failure(outcome) {
            Some(failure) => ProgressModel::Over(ConclusionModel::Failed(failure)),
            None => if self.rest.len() == 0 {
                ProgressModel::Over(self.conclusion)
            } else {
                ProgressModel::Perform {
                    call: self.rest[0].call,
                    run: RunModel {
                        current: Some(self.rest[0].policy),
                        rest: self.rest.drop_first(),
                        conclusion: self.conclusion,
                    },
                }
            },
        }
    }
}

impl ScriptRun {
    /// A script before its first call.
    pub fn new(script: Script) -> (run: ScriptRun)
        ensures
            run@ == RunModel::of(script@),
    {
        ScriptRun { current: None, rest: script.ops, conclusion: script.conclusion }
    }

    /// Takes in how the call under way went (before the first call, nothing
    /// is under way) and says what comes next.
    pub fn next(self, outcome: Outcome) -> (progress: Progress)
        ensures
            progress@ == self@.next(outcome@),
    {
        let failure: Option<SessionFailure> = match &self.current {
            Some(policy) => policy.failure(outcome),
            None => None,
        };
        if let Some(failure) = failure {
            return Progress::Over(Conclusion::Failed(failure));
        }
        let mut rest: Vec<Op> = self.rest;
        if rest.len() == 0 {
            return Progress::Over(self.conclusion);
        }
        let op: Op = rest.remove(0);
        let run = ScriptRun { current: Some(op.policy), rest, conclusion: self.conclusion };
        assert(run@.rest =~= self@.rest.drop_first());
        Progress::Perform { call: op.call, run }
    }
}

/// The calls made when the calls of a run go as `outcomes` says, and how it
/// ends; `None` while the run still waits.
pub open spec fn walked(run: RunModel, outcomes: Seq<OutcomeModel>) -> (
    Seq<CallModel>,
    Option<ConclusionModel>,
)
    decreases outcomes.len(),
{
    if outcomes.len() == 0 {
        (Seq::empty(), None)
    } else {
        match run.next(outcomes[0]) {
            ProgressModel::Over(conclusion) => (Seq::empty(), Some(conclusion)),
            ProgressModel::Perform { call, run } => {
                let (calls, conclusion) = walked(run, outcomes.drop_first());
                (seq![call] + calls, conclusion)
            },
        }
    }
}

/// The FLV bytes that a list of calls hands to the element, output by output.
pub open spec fn data_chunks(ops: Seq<OpModel>) -> Seq<Seq<u8>>
    decreases ops.len(),
{
    if ops.len() == 0 {
        Seq::empty()
    } else {
        let later = data_chunks(ops.drop_first());
        match ops[0].call {
            CallModel::Send(OutputModel::Data(bytes)) => seq![bytes] + later,
            CallModel::Offer(OutputModel::Data(bytes)) => seq![bytes] + later,
            _ => later,
        }
    }
}

/// The publish starts that a list of calls announces, in order.
pub open spec fn started_ids(ops: Seq<OpModel>) -> Seq<u64>
    decreases ops.len(),
{
    if ops.len() == 0 {
        Seq::empty()
    } else {
        let later = started_ids(ops.drop_first());
        match ops[0].call {
            CallModel::Send(OutputModel::PublishStarted { connection_id }) => seq![connection_id]
                + later,
            CallModel::Offer(OutputModel::PublishStarted { connection_id }) => seq![connection_id]
                + later,
            _ => later,
        }
    }
}

/// Whether a call hands something to the element.
pub open spec fn is_output(op: OpModel) -> bool {
    op.call is Send || op.call is Offer
}

pub(crate) proof fn lemma_data_chunks_concat(first: Seq<OpModel>, second: Seq<OpModel>)
    ensures
        data_chunks(first + second) == data_chunks(first) + data_chunks(second),
        started_ids(first + second) == started_ids(first) + started_ids(second),
    decreases first.len(),
{
    let both = first + second;
    if first.len() == 0 {
        assert(both =~= second);
        assert(data_chunks(first) + data_chunks(second) =~= data_chunks(second));
        assert(started_ids(first) + started_ids(second) =~= started_ids(second));
    } else {
        assert(both.drop_first() =~= first.drop_first() + second);
        lemma_data_chunks_concat(first.drop_first(), second);
        assert(data_chunks(both) =~= data_chunks(first) + data_chunks(second));
        assert(started_ids(both) =~= started_ids(first) + started_ids(second));
    }
}

/// Whatever cuts a list of calls short, the FLV bytes that reached the element
/// are a beginning of those that would have.
pub proof fn law_interrupted_output_is_a_beginning(ops: Seq<OpModel>, made: int)
    requires
        0 <= made <= ops.len(),
    ensures
        data_chunks(ops.take(made)).len() <= data_chunks(ops).len(),
        data_chunks(ops.take(made)) == data_chunks(ops).take(
            data_chunks(ops.take(made)).len() as int,
        ),
{
    let sent = data_chunks(ops.take(made));
    lemma_data_chunks_concat(ops.take(made), ops.skip(made));
    assert(ops.take(made) + ops.skip(made) =~= ops);
    assert(data_chunks(ops).take(sent.len() as int) =~= sent);
}

/// The calls of a script, in order.
pub open spec fn calls_of(ops: Seq<OpModel>) -> Seq<CallModel> {
    ops.map_values(|op: OpModel| op.call)
}

/// A script whose calls all go well makes each of them once, in order, and
/// ends with its conclusion.
pub proof fn law_untroubled_script_runs_through(run: RunModel)
    ensures
        walked(run, Seq::new(run.rest.len() + 1, |i: int| OutcomeModel::Done)) == (
            calls_of(run.rest),
            Some(run.conclusion),
        ),
    decreases run.rest.len(),
{
    let outcomes = Seq::new(run.rest.len() + 1, |i: int| OutcomeModel::Done);
    if run.rest.len() == 0 {
        assert(calls_of(run.rest) =~= Seq::<CallModel>::empty());
    } else {
        let later = RunModel {
            current: Some(run.rest[0].policy),
            rest: run.rest.drop_first(),
            conclusion: run.conclusion,
        };
        law_untroubled_script_runs_through(later);
        assert(outcomes.drop_first() =~= Seq::new(
            later.rest.len() + 1,
            |i: int| OutcomeModel::Done,
        ));
        assert(seq![run.rest[0].call] + calls_of(later.rest) =~= calls_of(run.rest));
    }
}

/// Whatever happens, a script makes its calls in order and none that is not
/// its own: the calls made are the first ones of the script.
pub proof fn law_script_never_strays(run: RunModel, outcomes: Seq<OutcomeModel>)
    ensures
        walked(run, outcomes).0.len() <= run.rest.len(),
        walked(run, outcomes).0 == calls_of(run.rest).take(walked(run, outcomes).0.len() as int),
    decreases outcomes.len(),
{
    let made = walked(run, outcomes).0;
    if outcomes.len() > 0 {
        match run.next(outcomes[0]) {
            ProgressModel::Over(_) => {},
            ProgressModel::Perform { call, run: later } => {
                law_script_never_strays(later, outcomes.drop_first());
                let tail = walked(later, outcomes.drop_first()).0;
                assert(made =~= calls_of(run.rest).take(made.len() as int)) by {
                    assert forall|i: int| 0 <= i < made.len() implies made[i] == calls_of(
                        run.rest,
                    )[i] by {
                        if i > 0 {
                            assert(made[i] == tail[i - 1]);
                            assert(tail[i - 1] == calls_of(later.rest)[i - 1]);
                        }
                    }
                }
            },
        }
    }
    assert(made =~= calls_of(run.rest).take(made.len() as int));
}

/// A call that goes well never cuts a script short. One that does not cuts it
/// short exactly if its policy minds, with the policy's words and the reason;
/// then no further call is made.
pub proof fn law_policies_decide_what_fails(
    run: RunModel,
    policy: PolicyModel,
    reason: Seq<char>,
    failure: FailureModel,
)
    requires
        run.current == Some(policy),
    ensures
        ({
            let goes_on = if run.rest.len() == 0 {
                ProgressModel::Over(run.conclusion)
            } else {
                ProgressModel::Perform {
                    call: run.rest[0].call,
                    run: RunModel {
                        current: Some(run.rest[0].policy),
                        rest: run.rest.drop_first(),
                        conclusion: run.conclusion,
                    },
                }
            };
            let fails = |message: Seq<char>, vanished: bool|
                ProgressModel::Over(
                    ConclusionModel::Failed(
                        FailureModel { message, client_disconnect: vanished },
                    ),
                );
            &&& run.next(OutcomeModel::Done) == goes_on
            &&& run.next(OutcomeModel::Closed) == match policy.closed {
                Some(text) => fails(text, false),
                None => goes_on,
            }
            &&& run.next(OutcomeModel::Refused(reason)) == match policy.refused {
                Some(text) => fails(text + ": "@ + reason, false),
                None => goes_on,
            }
            &&& run.next(OutcomeModel::WriteFailed(failure)) == match policy.on_write {
                OnWrite::Fail => fails(failure.message, failure.client_disconnect),
                OnWrite::FailAsError => fails(failure.message, false),
                OnWrite::Ignore => goes_on,
            }
        }),
{
}

/// Before its first call nothing is under way that could fail: a script starts
/// with its first call, or ends at once if it has none.
pub proof fn law_scripts_start_with_their_first_call(script: ScriptModel, outcome: OutcomeModel)
    ensures
        script.ops.len() == 0 ==> RunModel::of(script).next(outcome) == ProgressModel::Over(
            script.conclusion,
        ),
        script.ops.len() > 0 ==> (RunModel::of(script).next(outcome) matches
            ProgressModel::Perform { call, run } && call == script.ops[0].call && run.current
            == Some(script.ops[0].policy) && run.rest == script.ops.drop_first()
            && run.conclusion == script.conclusion),
{
}

/// What each kind of call makes of trouble: an output must be taken, a packet
/// must be written, a request must not be refused, and whatever comes of a call
/// that is made anyway does not matter.
pub proof fn law_calls_and_their_trouble(
    output: OutputModel,
    call: CallModel,
    refused: Seq<char>,
    on_write: OnWrite,
    packet: Seq<u8>,
)
    ensures
        send(output).call == CallModel::Send(output),
        send(output).policy == (PolicyModel {
            closed: Some("listener is shutting down"@),
            refused: None,
            on_write: OnWrite::Ignore,
        }),
        anyway(call).call == call,
        anyway(call).policy == (PolicyModel {
            closed: None,
            refused: None,
            on_write: OnWrite::Ignore,
        }),
        ask(call, refused, on_write).call == call,
        ask(call, refused, on_write).policy == (PolicyModel {
            closed: None,
            refused: Some(refused),
            on_write,
        }),
        write_out(packet).call == CallModel::Write(packet),
        write_out(packet).policy == (PolicyModel {
            closed: None,
            refused: None,
            on_write: OnWrite::Fail,
        }),
{
}

/// What a call asks for is what it holds.
pub proof fn law_calls_show_their_fields(
    output: WorkerOutput,
    bytes: Vec<u8>,
    id: u32,
    name: String,
    text: String,
    tag: FlvTag,
    nanoseconds: u64,
)
    ensures
        Call::Send(output)@ == CallModel::Send(output@),
        Call::Offer(output)@ == CallModel::Offer(output@),
        Call::Write(bytes)@ == CallModel::Write(bytes@),
        Call::WriteMedia(bytes)@ == CallModel::WriteMedia(bytes@),
        (Call::AcceptConnection { request_id: id })@ == (CallModel::AcceptConnection {
            request_id: id,
        }),
        (Call::AcceptPublish { request_id: id })@ == (CallModel::AcceptPublish { request_id: id }),
        (Call::AcceptPlay { request_id: id })@ == (CallModel::AcceptPlay { request_id: id }),
        (Call::Reject { request_id: id, code: name, description: text })@ == (CallModel::Reject {
            request_id: id,
            code: name@,
            description: text@,
        }),
        (Call::RequestConnection { app: name })@ == (CallModel::RequestConnection { app: name@ }),
        (Call::RequestPlayback { stream_key: name })@ == (CallModel::RequestPlayback {
            stream_key: name@,
        }),
        (Call::RequestPublish { stream_key: name })@ == (CallModel::RequestPublish {
            stream_key: name@,
        }),
        Call::Publish(tag)@ == CallModel::Publish(
            TagModel {
                tag_type: tag.tag_type,
                timestamp: tag.timestamp,
                payload: tag.payload@,
            },
        ),
        (Call::Serve { stream_id: id, tag })@ == (CallModel::Serve {
            stream_id: id,
            tag: TagModel {
                tag_type: tag.tag_type,
                timestamp: tag.timestamp,
                payload: tag.payload@,
            },
        }),
        (Call::FinishPlaying { stream_id: id })@ == (CallModel::FinishPlaying { stream_id: id }),
        (Call::AwaitClose { nanoseconds })@ == (CallModel::AwaitClose { nanoseconds }),
        Call::Cancel@ == CallModel::Cancel,
        Call::MarkRejected@ == CallModel::MarkRejected,
        Call::WritePublished@ == CallModel::WritePublished,
        Call::StopPublishing@ == CallModel::StopPublishing,
        Call::ShutDown@ == CallModel::ShutDown,
        Call::ReportStarted@ == CallModel::ReportStarted,
{
}

/// How a call went, what follows a script, and a script's own calls are told as
/// they are.
pub proof fn law_scripts_show_their_fields(
    script: Script,
    op: Op,
    text: String,
    failure: SessionFailure,
    id: u32,
)
    ensures
        script@.conclusion == script.conclusion@,
        script@.ops.len() == script.ops@.len(),
        forall|i: int| 0 <= i < script.ops@.len() ==> #[trigger] script@.ops[i] == script.ops@[i]@,
        op@.call == op.call@,
        op@.policy.on_write == op.policy.on_write,
        op.policy.closed is Some <==> op@.policy.closed is Some,
        op.policy.closed matches Some(text) ==> op@.policy.closed == Some(text@),
        op.policy.refused is Some <==> op@.policy.refused is Some,
        op.policy.refused matches Some(text) ==> op@.policy.refused == Some(text@),
        Outcome::Done@ == OutcomeModel::Done,
        Outcome::Closed@ == OutcomeModel::Closed,
        Outcome::Refused(text)@ == OutcomeModel::Refused(text@),
        Outcome::WriteFailed(failure)@ == OutcomeModel::WriteFailed(failure@),
        Conclusion::Continue@ == ConclusionModel::Continue,
        Conclusion::Finished@ == ConclusionModel::Finished,
        Conclusion::Failed(failure)@ == ConclusionModel::Failed(failure@),
        (Conclusion::Playing { stream_id: id })@ == (ConclusionModel::Playing { stream_id: id }),
        Conclusion::TurnedAway@ == ConclusionModel::TurnedAway,
{
}

/// What a script asks for next is told as it is.
pub proof fn law_progress_shows_its_fields(call: Call, run: ScriptRun, conclusion: Conclusion)
    ensures
        (Progress::Perform { call, run })@ == (ProgressModel::Perform { call: call@, run: run@ }),
        Progress::Over(conclusion)@ == ProgressModel::Over(conclusion@),
{
}

} // verus!
