//! The life of one connection.
//!
//! A session is `Active` from the moment its stream is accepted. It takes one
//! inbound frame at a time, and carries out the command of a text frame action
//! by action before it takes the next frame. Nothing that a frame holds and
//! nothing that an action does ends the session: a frame that cannot be read
//! and an action that fails are reported, and the session goes on. A close
//! frame or the end of the stream leads through `Closing` to `Closed`; an
//! error of the transport leads to `Closed` at once. How the session ended is
//! reported once.
//!
//! The session reads and performs nothing itself. A text frame comes with
//! what the driver's reader of JSON made of its text, and [`decode`] settles
//! what the frame is read as. Each step answers with a [`Directive`], which
//! says what the driver is to do next, and the driver comes back with what
//! happened:
//!
//! * after `Receive`, with the next frame, to [`Session::receive`];
//! * after `Perform`, with the result of the action, to
//!   [`Session::complete`];
//! * after `Finish`, to [`Session::finish`], for the report of the end.

use vstd::prelude::*;
use crate::config::RemoteCommand;
use crate::dispatch::{
    failure, failure_of, has_executor, is_implemented, lemma_plan_targets, plan, plan_of, Action,
    DispatchError,
};
use crate::cec::{broadcast, Opcode};
use crate::wire::{decode, lemma_round_trip, reading, wire_text, written_command, DecodeError};

verus! {

/// Where a session stands.
#[derive(Clone, Copy, Debug, PartialEq, Eq, Structural)]
pub enum SessionState {
    /// Frames are taken and commands carried out.
    Active,
    /// The client has left; the end is not reported yet.
    Closing,
    /// Nothing more is taken.
    Closed,
}

/// One message of the stream, as far as the session looks at it.
#[derive(Debug, PartialEq, Eq)]
pub enum Frame {
    /// A text frame: its text, and what the driver's reader of JSON made of
    /// it, a command or the reason why it found none.
    Text { text: String, read: Result<RemoteCommand, String> },
    /// Bytes without a meaning so far.
    Binary(Vec<u8>),
    Ping,
    Pong,
    /// The client ends the session.
    Close,
}

/// How a session ended.
#[derive(Clone, Debug, PartialEq, Eq)]
pub enum Ending {
    /// The client closed the stream or let it end.
    Disconnected,
    /// The transport failed, with what it said of the failure.
    Failed(String),
}

/// The report of the end of a session.
#[derive(Clone, Debug, PartialEq, Eq)]
pub struct Termination {
    /// Whose session it was.
    pub client: String,
    pub ending: Ending,
}

/// What a step has to tell.
#[derive(Clone, Debug, PartialEq, Eq)]
pub enum Report {
    /// A binary frame of `len` bytes was taken and left aside.
    BinaryIgnored { len: usize },
    /// The client sent a close frame.
    CloseReceived,
    /// A text frame of `client` held no command.
    DecodeFailed { client: String, cause: DecodeError },
    /// Every action of a command was performed.
    Completed(RemoteCommand),
    /// A command was read, and nothing on the host carries it out.
    Unimplemented(RemoteCommand),
    /// An action of a command of `client` failed; the actions after it were
    /// left out.
    Failed { client: String, command: RemoteCommand, error: DispatchError },
}

/// What the driver is to do next.
#[derive(Clone, Copy, Debug, PartialEq, Eq)]
pub enum Directive {
    /// Wait for the next frame and hand it to `receive`.
    Receive,
    /// Perform the action and hand its result to `complete`.
    Perform(Action),
    /// Leave the stream and call `finish`.
    Finish,
}

/// The answer to one step.
#[derive(Clone, Debug, PartialEq, Eq)]
pub struct Step {
    pub report: Option<Report>,
    pub next: Directive,
}

/// The session of one client.
#[derive(Debug)]
pub struct Session {
    client: String,
    state: SessionState,
    in_flight: Option<(RemoteCommand, usize)>,
    failure: Option<String>,
}

/// What a session is, to its contracts.
pub struct SessionView {
    /// Who the client is.
    pub client: String,
    pub state: SessionState,
    /// The command that is being carried out, and how many of its actions are
    /// done.
    pub in_flight: Option<(RemoteCommand, int)>,
    /// What the transport said when it failed, until that is reported.
    pub failure: Option<String>,
}

impl SessionView {
    /// What holds of every session.
    pub open spec fn wf(self) -> bool {
        &&& self.in_flight matches Some((command, done)) ==> self.state == SessionState::Active
            && 0 <= done < plan_of(command).len()
        &&& self.failure is Some ==> self.state == SessionState::Closed
    }

    /// Whether the session is ready for a frame.
    pub open spec fn awaiting_frame(self) -> bool {
        self.state == SessionState::Active && self.in_flight is None
    }

    /// What the driver is to do as the session stands.
    pub open spec fn directive(self) -> Directive {
        if self.state != SessionState::Active {
            Directive::Finish
        } else {
            match self.in_flight {
                Some((command, done)) => Directive::Perform(plan_of(command)[done]),
                None => Directive::Receive,
            }
        }
    }

    /// The end that is still to be reported.
    pub open spec fn ending(self) -> Option<Ending> {
        match self.state {
            SessionState::Active => None,
            SessionState::Closing => Some(Ending::Disconnected),
            SessionState::Closed => match self.failure {
                Some(detail) => Some(Ending::Failed(detail)),
                None => None,
            },
        }
    }

    /// The report of the end that is still to be reported.
    pub open spec fn termination(self) -> Option<Termination> {
        match self.ending() {
            Some(ending) => Some(Termination { client: self.client, ending }),
            None => None,
        }
    }
}

/// The session of `client` as it is accepted.
pub open spec fn accepted(client: String) -> SessionView {
    SessionView { client, state: SessionState::Active, in_flight: None, failure: None }
}

/// The step that leaves everything as it is.
pub open spec fn stay(pre: SessionView, report: Option<Report>) -> (SessionView, Step) {
    (pre, Step { report, next: pre.directive() })
}

/// The step that begins to carry out `command`.
pub open spec fn dispatch_step(pre: SessionView, command: RemoteCommand) -> (SessionView, Step) {
    if !has_executor(command) {
        stay(pre, Some(Report::Unimplemented(command)))
    } else if plan_of(command).len() == 0 {
        stay(pre, Some(Report::Completed(command)))
    } else {
        (
            SessionView { in_flight: Some((command, 0)), ..pre },
            Step { report: None, next: Directive::Perform(plan_of(command)[0]) },
        )
    }
}

/// The step that takes what the stream gave: a frame, an error of the
/// transport, or `None` at its end. A session that is not ready for a frame
/// leaves it aside.
pub open spec fn receive_step(pre: SessionView, inbound: Option<Result<Frame, String>>) -> (
    SessionView,
    Step,
) {
    if !pre.awaiting_frame() {
        stay(pre, None)
    } else {
        match inbound {
            None => (
                SessionView { state: SessionState::Closing, ..pre },
                Step { report: None, next: Directive::Finish },
            ),
            Some(Err(detail)) => (
                SessionView { state: SessionState::Closed, failure: Some(detail), ..pre },
                Step { report: None, next: Directive::Finish },
            ),
            Some(Ok(Frame::Close)) => (
                SessionView { state: SessionState::Closing, ..pre },
                Step { report: Some(Report::CloseReceived), next: Directive::Finish },
            ),
            Some(Ok(Frame::Ping)) => stay(pre, None),
            Some(Ok(Frame::Pong)) => stay(pre, None),
            Some(Ok(Frame::Binary(bytes))) => stay(
                pre,
                Some(Report::BinaryIgnored { len: bytes.len() }),
            ),
            Some(Ok(Frame::Text { text, read })) => match reading(text@, read) {
                Ok(command) => dispatch_step(pre, command),
                Err(error) => stay(
                    pre,
                    Some(Report::DecodeFailed { client: pre.client, cause: error }),
                ),
            },
        }
    }
}

/// The step that takes the result of the action that was to be performed. A
/// session that has no command in flight leaves it aside.
pub open spec fn complete_step(pre: SessionView, result: Result<(), String>) -> (
    SessionView,
    Step,
) {
    match pre.in_flight {
        None => stay(pre, None),
        Some((command, done)) => {
            let idle = SessionView { in_flight: None, ..pre };
            match result {
                Err(detail) => stay(
                    idle,
                    Some(
                        Report::Failed {
                            client: pre.client,
                            command,
                            error: failure_of(plan_of(command)[done], detail),
                        },
                    ),
                ),
                Ok(_) => if done + 1 < plan_of(command).len() {
                    (
                        SessionView { in_flight: Some((command, done + 1)), ..pre },
                        Step {
                            report: None,
                            next: Directive::Perform(plan_of(command)[done + 1]),
                        },
                    )
                } else {
                    stay(idle, Some(Report::Completed(command)))
                },
            }
        },
    }
}

/// The step that reports the end of a session that has ended, and closes it.
pub open spec fn finish_step(pre: SessionView) -> (SessionView, Option<Termination>) {
    match pre.state {
        SessionState::Active => (pre, None),
        SessionState::Closing => (
            SessionView { state: SessionState::Closed, ..pre },
            pre.termination(),
        ),
        SessionState::Closed => (SessionView { failure: None, ..pre }, pre.termination()),
    }
}

impl View for Session {
    type V = SessionView;

    closed spec fn view(&self) -> SessionView {
        SessionView {
            client: self.client,
            state: self.state,
            in_flight: match self.in_flight {
                Some((command, done)) => if self.state == SessionState::Active && done < plan_of(
                    command,
                ).len() {
                    Some((command, done as int))
                } else {
                    None
                },
                None => None,
            },
            failure: if self.state == SessionState::Closed {
                self.failure
            } else {
                None
            },
        }
    }
}

impl Session {
    /// The session of a client whose stream was accepted.
    pub fn new(client: String) -> (session: Session)
        ensures
            session@ == accepted(client),
    {
        Session { client, state: SessionState::Active, in_flight: None, failure: None }
    }

    /// Who the client is.
    pub fn client(&self) -> (client: &String)
        ensures
            *client == self@.client,
    {
        &self.client
    }

    /// Where the session stands.
    pub fn state(&self) -> (state: SessionState)
        ensures
            state == self@.state,
    {
        self.state
    }

    /// The command that is being carried out, and how many of its actions are
    /// done.
    pub fn in_flight(&self) -> (in_flight: Option<(RemoteCommand, usize)>)
        ensures
            match in_flight {
                Some((command, done)) => self@.in_flight == Some((command, done as int)),
                None => self@.in_flight is None,
            },
    {
        match self.state {
            SessionState::Active => match self.in_flight {
                Some((command, done)) => {
                    let actions: Vec<Action> = plan(command);
                    if done < actions.len() {
                        Some((command, done))
                    } else {
                        None
                    }
                },
                None => None,
            },
            SessionState::Closing => None,
            SessionState::Closed => None,
        }
    }

    /// What the driver is to do as the session stands.
    pub fn directive(&self) -> (next: Directive)
        ensures
            next == self@.directive(),
    {
        match self.state {
            SessionState::Active => match self.in_flight() {
                Some((command, done)) => {
                    let actions: Vec<Action> = plan(command);
                    Directive::Perform(actions[done])
                },
                None => Directive::Receive,
            },
            SessionState::Closing => Directive::Finish,
            SessionState::Closed => Directive::Finish,
        }
    }

    /// Begins to carry out a command.
    fn dispatch(&mut self, command: RemoteCommand) -> (step: Step)
        requires
            old(self)@.awaiting_frame(),
        ensures
            (final(self)@, step) == dispatch_step(old(self)@, command),
    {
        if !is_implemented(command) {
            return Step { report: Some(Report::Unimplemented(command)), next: Directive::Receive };
        }
        let actions: Vec<Action> = plan(command);
        if actions.len() == 0 {
            return Step { report: Some(Report::Completed(command)), next: Directive::Receive };
        }
        self.in_flight = Some((command, 0));
        Step { report: None, next: Directive::Perform(actions[0]) }
    }

    /// Takes what the stream gave: a frame, an error of the transport, or
    /// `None` at its end.
    ///
    /// A frame that is no command is reported and the session goes on. A
    /// session that is carrying out a command, or has ended, leaves what it
    /// is given aside and repeats what the driver is to do.
    pub fn receive(&mut self, inbound: Option<Result<Frame, String>>) -> (step: Step)
        ensures
            (final(self)@, step) == receive_step(old(self)@, inbound),
            final(self)@.wf(),
    {
        let next: Directive = self.directive();
        match next {
            Directive::Receive => {},
            Directive::Perform(_) => {
                return Step { report: None, next };
            },
            Directive::Finish => {
                return Step { report: None, next };
            },
        }
        match inbound {
            None => {
                self.state = SessionState::Closing;
                Step { report: None, next: Directive::Finish }
            },
            Some(Err(detail)) => {
                self.state = SessionState::Closed;
                self.failure = Some(detail);
                Step { report: None, next: Directive::Finish }
            },
            Some(Ok(Frame::Close)) => {
                self.state = SessionState::Closing;
                Step { report: Some(Report::CloseReceived), next: Directive::Finish }
            },
            Some(Ok(Frame::Ping)) => Step { report: None, next: Directive::Receive },
            Some(Ok(Frame::Pong)) => Step { report: None, next: Directive::Receive },
            Some(Ok(Frame::Binary(bytes))) => Step {
                report: Some(Report::BinaryIgnored { len: bytes.len() }),
                next: Directive::Receive,
            },
            Some(Ok(Frame::Text { text, read })) => match decode(text.as_str(), read) {
                Ok(command) => self.dispatch(command),
                Err(error) => Step {
                    report: Some(
                        Report::DecodeFailed { client: self.client.clone(), cause: error },
                    ),
                    next: Directive::Receive,
                },
            },
        }
    }

    /// Takes the result of the action that the driver was to perform: `Ok`
    /// if it was performed, else what the adapter said of its failure.
    ///
    /// After a failure the remaining actions of the command are left out, the
    /// failure is reported with the command, and the session goes on. A
    /// session that has no command in flight leaves the result aside.
    pub fn complete(&mut self, result: Result<(), String>) -> (step: Step)
        ensures
            (final(self)@, step) == complete_step(old(self)@, result),
            final(self)@.wf(),
    {
        let (command, done) = match self.in_flight() {
            Some(in_flight) => in_flight,
            None => {
                return Step { report: None, next: self.directive() };
            },
        };
        let actions: Vec<Action> = plan(command);
        match result {
            Err(detail) => {
                self.in_flight = None;
                Step {
                    report: Some(
                        Report::Failed {
                            client: self.client.clone(),
                            command,
                            error: failure(actions[done], detail),
                        },
                    ),
                    next: Directive::Receive,
                }
            },
            Ok(_) => {
                if done + 1 < actions.len() {
                    self.in_flight = Some((command, done + 1));
                    Step { report: None, next: Directive::Perform(actions[done + 1]) }
                } else {
                    self.in_flight = None;
                    Step { report: Some(Report::Completed(command)), next: Directive::Receive }
                }
            },
        }
    }

    /// Reports how the session ended, and closes it.
    ///
    /// The end is reported by the first call after the session has ended and
    /// by no other: a session that is still active has nothing to report, and
    /// one whose end was reported has nothing more.
    pub fn finish(&mut self) -> (ended: Option<Termination>)
        ensures
            (final(self)@, ended) == finish_step(old(self)@),
            final(self)@.wf(),
    {
        match self.state {
            SessionState::Active => None,
            SessionState::Closing => {
                self.state = SessionState::Closed;
                self.failure = None;
                Some(Termination { client: self.client.clone(), ending: Ending::Disconnected })
            },
            SessionState::Closed => {
                match self.failure.take() {
                    Some(detail) => Some(
                        Termination { client: self.client.clone(), ending: Ending::Failed(detail) },
                    ),
                    None => None,
                }
            },
        }
    }
}

/// One call of the driver.
pub enum Call {
    Receive(Option<Result<Frame, String>>),
    Complete(Result<(), String>),
    Finish,
}

/// The session after one call.
pub open spec fn after(pre: SessionView, call: Call) -> SessionView {
    match call {
        Call::Receive(inbound) => receive_step(pre, inbound).0,
        Call::Complete(result) => complete_step(pre, result).0,
        Call::Finish => finish_step(pre).0,
    }
}

/// The session after a row of calls.
pub open spec fn after_all(pre: SessionView, calls: Seq<Call>) -> SessionView
    decreases calls.len(),
{
    if calls.len() == 0 {
        pre
    } else {
        after_all(after(pre, calls[0]), calls.drop_first())
    }
}

/// How many ends one call reports.
pub open spec fn ends_reported_by(pre: SessionView, call: Call) -> nat {
    match call {
        Call::Finish => if finish_step(pre).1 is Some {
            1
        } else {
            0
        },
        Call::Receive(_) => 0,
        Call::Complete(_) => 0,
    }
}

/// How many ends a row of calls reports.
pub open spec fn ends_reported(pre: SessionView, calls: Seq<Call>) -> nat
    decreases calls.len(),
{
    if calls.len() == 0 {
        0
    } else {
        ends_reported_by(pre, calls[0]) + ends_reported(after(pre, calls[0]), calls.drop_first())
    }
}

/// How many ends a session has yet to report: one until its end is reported,
/// none after.
pub open spec fn ends_owed(view: SessionView) -> nat {
    if view.state == SessionState::Active || view.ending() is Some {
        1
    } else {
        0
    }
}

/// Every session is well formed.
pub proof fn lemma_session_wf(session: Session)
    ensures
        session@.wf(),
{
}

/// Every call leaves a well-formed session well formed, never changes the
/// client, and never leads back: an active session stays active or ends, a
/// closing one stays or closes, a closed one stays closed.
pub proof fn lemma_call_keeps_order(pre: SessionView, call: Call)
    requires
        pre.wf(),
    ensures
        after(pre, call).wf(),
        after(pre, call).client == pre.client,
        pre.state == SessionState::Closing ==> after(pre, call).state != SessionState::Active,
        pre.state == SessionState::Closed ==> after(pre, call).state == SessionState::Closed,
{
}

/// A text frame that holds no command is reported with the client and the
/// reader's reason and changes nothing: the session stays active and waits
/// for the next frame.
pub proof fn lemma_unreadable_frame_is_survived(pre: SessionView, text: String, reason: String)
    requires
        pre.awaiting_frame(),
        written_command(text@) is None,
    ensures
        receive_step(pre, Some(Ok(Frame::Text { text, read: Err(reason) }))) == (
            pre,
            Step {
                report: Some(
                    Report::DecodeFailed { client: pre.client, cause: DecodeError { reason } },
                ),
                next: Directive::Receive,
            },
        ),
{
}

/// Binary, ping and pong frames change nothing.
pub proof fn lemma_idle_frames_change_nothing(pre: SessionView, frame: Frame)
    requires
        pre.wf(),
        frame is Binary || frame is Ping || frame is Pong,
    ensures
        receive_step(pre, Some(Ok(frame))).0 == pre,
        receive_step(pre, Some(Ok(frame))).1.next == pre.directive(),
        frame is Binary && pre.awaiting_frame() ==> receive_step(pre, Some(Ok(frame))).1.report
            == Some(Report::BinaryIgnored { len: frame->Binary_0.len() }),
        !(frame is Binary && pre.awaiting_frame()) ==> receive_step(
            pre,
            Some(Ok(frame)),
        ).1.report is None,
{
}

/// An action that fails ends its command and nothing else: the failure is
/// reported with the command, no further action of the command is asked
/// for, and the session stays active and waits for the next frame.
pub proof fn lemma_failed_action_is_survived(pre: SessionView, detail: String)
    requires
        pre.wf(),
        pre.in_flight is Some,
    ensures
        complete_step(pre, Err(detail)).0 == (SessionView { in_flight: None, ..pre }),
        complete_step(pre, Err(detail)).0.awaiting_frame(),
        complete_step(pre, Err(detail)).1.next == Directive::Receive,
        complete_step(pre, Err(detail)).1.report matches Some(
            Report::Failed { client, command, error },
        ) && pre.in_flight matches Some((failed, _)) && client == pre.client && command == failed
            && error.detail() == detail@,
{
}

/// The actions of a command are asked for one by one in the order of its
/// plan, each after the one before it was performed, and the command is
/// reported as completed after the last.
pub proof fn lemma_actions_follow_plan(pre: SessionView)
    requires
        pre.wf(),
        pre.in_flight is Some,
    ensures
        ({
            let (command, done) = pre.in_flight->0;
            let (post, step) = complete_step(pre, Ok(()));
            &&& pre.directive() == Directive::Perform(plan_of(command)[done])
            &&& done + 1 < plan_of(command).len() ==> post.in_flight == Some((command, done + 1))
                && step.report is None && step.next == Directive::Perform(
                plan_of(command)[done + 1],
            )
            &&& done + 1 == plan_of(command).len() ==> post.awaiting_frame() && step.report
                == Some(Report::Completed(command)) && step.next == Directive::Receive
        }),
{
}

/// A text frame that was written for a command begins to carry that command
/// out, whatever the reader made of it and whatever the session has taken
/// before.
pub proof fn lemma_written_frame_is_dispatched(
    pre: SessionView,
    text: String,
    read: Result<RemoteCommand, String>,
    command: RemoteCommand,
)
    requires
        pre.awaiting_frame(),
        text@ == wire_text(command),
    ensures
        receive_step(pre, Some(Ok(Frame::Text { text, read }))) == dispatch_step(pre, command),
{
    lemma_round_trip(command);
}

/// A text frame in any other spelling begins to carry out the command that
/// the reader found in it.
pub proof fn lemma_read_frame_is_dispatched(pre: SessionView, text: String, command: RemoteCommand)
    requires
        pre.awaiting_frame(),
        written_command(text@) is None,
    ensures
        receive_step(pre, Some(Ok(Frame::Text { text, read: Ok(command) }))) == dispatch_step(
            pre,
            command,
        ),
{
}

/// Making the host the active source asks for the frame that names the
/// physical address 2.0.0.0, whatever the session has taken before.
pub proof fn lemma_active_source_self_frame(
    pre: SessionView,
    text: String,
    read: Result<RemoteCommand, String>,
)
    requires
        pre.awaiting_frame(),
        reading(text@, read) == Ok::<RemoteCommand, DecodeError>(
            RemoteCommand::CecActiveSourceSelf,
        ),
    ensures
        receive_step(pre, Some(Ok(Frame::Text { text, read }))).1 == (Step {
            report: None,
            next: Directive::Perform(
                Action::Transmit(broadcast(Opcode::ActiveSource, Some([0x20u8, 0x00u8]))),
            ),
        }),
{
}

/// A session carries out one command at a time: while a command is in
/// flight, what the stream gives is left aside and the driver is asked again
/// for the action that is due.
pub proof fn lemma_one_command_at_a_time(pre: SessionView, inbound: Option<Result<Frame, String>>)
    requires
        pre.wf(),
        pre.in_flight is Some,
    ensures
        receive_step(pre, inbound) == (pre, Step { report: None, next: pre.directive() }),
        pre.directive() is Perform,
{
}

/// A command that nothing carries out is reported as unimplemented and asks
/// for no action, so it reaches neither the pointer nor the bus.
pub proof fn lemma_unimplemented_is_reported(
    pre: SessionView,
    text: String,
    read: Result<RemoteCommand, String>,
    command: RemoteCommand,
)
    requires
        pre.awaiting_frame(),
        reading(text@, read) == Ok::<RemoteCommand, DecodeError>(command),
        !has_executor(command),
    ensures
        receive_step(pre, Some(Ok(Frame::Text { text, read }))) == (
            pre,
            Step { report: Some(Report::Unimplemented(command)), next: Directive::Receive },
        ),
{
}

/// Only a command that something carries out is reported as completed or
/// failed, and only one that nothing carries out as unimplemented; a step
/// asks to perform an action only of a command that has one.
pub proof fn lemma_reports_tell_apart(pre: SessionView, call: Call)
    requires
        pre.wf(),
        !(call is Finish),
    ensures
        ({
            let step = match call {
                Call::Receive(inbound) => receive_step(pre, inbound).1,
                Call::Complete(result) => complete_step(pre, result).1,
                Call::Finish => arbitrary(),
            };
            &&& step.report matches Some(Report::Unimplemented(command)) ==> !has_executor(command)
            &&& step.report matches Some(Report::Completed(command)) ==> has_executor(command)
            &&& step.report matches Some(Report::Failed { command, .. }) ==> has_executor(command)
            &&& step.next is Perform ==> after(pre, call).in_flight is Some
        }),
{
    match pre.in_flight {
        Some((command, done)) => {
            lemma_plan_targets(command, done);
        },
        None => {},
    }
}

/// A close frame ends the session without an error: the session is closing,
/// the driver is told to finish, and `finish` reports that the client has
/// left and closes the session. A second `finish` reports nothing.
pub proof fn lemma_close_frame_ends_cleanly(pre: SessionView)
    requires
        pre.wf(),
        pre.awaiting_frame(),
    ensures
        ({
            let (closing, step) = receive_step(pre, Some(Ok(Frame::Close)));
            let (closed, ended) = finish_step(closing);
            &&& closing.state == SessionState::Closing
            &&& step == (Step { report: Some(Report::CloseReceived), next: Directive::Finish })
            &&& ended == Some(Termination { client: pre.client, ending: Ending::Disconnected })
            &&& closed.state == SessionState::Closed
            &&& finish_step(closed) == (closed, None::<Termination>)
        }),
{
}

/// The end of the stream ends the session as a close frame does, and an
/// error of the transport closes it at once and is reported by `finish` with
/// what the transport said.
pub proof fn lemma_stream_end_and_error(pre: SessionView, detail: String)
    requires
        pre.wf(),
        pre.awaiting_frame(),
    ensures
        receive_step(pre, None).0.state == SessionState::Closing,
        receive_step(pre, None).1 == (Step { report: None, next: Directive::Finish }),
        finish_step(receive_step(pre, None).0).1 == Some(
            Termination { client: pre.client, ending: Ending::Disconnected },
        ),
        receive_step(pre, Some(Err(detail))).0.state == SessionState::Closed,
        receive_step(pre, Some(Err(detail))).1 == (Step { report: None, next: Directive::Finish }),
        finish_step(receive_step(pre, Some(Err(detail))).0).1 == Some(
            Termination { client: pre.client, ending: Ending::Failed(detail) },
        ),
{
}

/// The end of a session is reported once: whatever the driver calls and in
/// whatever order, the calls report as many ends as the session owed before
/// them and no longer owes after them, which is one at most.
pub proof fn lemma_end_is_reported_once(pre: SessionView, calls: Seq<Call>)
    requires
        pre.wf(),
    ensures
        after_all(pre, calls).wf(),
        ends_reported(pre, calls) + ends_owed(after_all(pre, calls)) == ends_owed(pre),
        ends_reported(pre, calls) <= 1,
    decreases calls.len(),
{
    if calls.len() > 0 {
        lemma_call_keeps_order(pre, calls[0]);
        lemma_end_is_reported_once(after(pre, calls[0]), calls.drop_first());
    }
}

/// Once a session has ended, `finish` reports its end, and after that the
/// session is closed and owes no report.
pub proof fn lemma_finish_reports_the_end(pre: SessionView)
    requires
        pre.wf(),
        pre.state != SessionState::Active,
    ensures
        finish_step(pre).1 == pre.termination(),
        pre.ending() is Some ==> finish_step(pre).1 is Some,
        finish_step(pre).0.state == SessionState::Closed,
        ends_owed(finish_step(pre).0) == 0,
{
}

/// The session after the driver has performed, without a failure, every
/// action of the command in flight, and the actions it performed, in order.
pub open spec fn carried_out(pre: SessionView) -> (SessionView, Seq<Action>)
    decreases
        (match pre.in_flight {
            Some((command, done)) => plan_of(command).len() - done,
            None => 0,
        }),
{
    match pre.in_flight {
        Some((command, done)) => if pre.wf() {
            let rest = carried_out(complete_step(pre, Ok(())).0);
            (rest.0, seq![plan_of(command)[done]] + rest.1)
        } else {
            (pre, Seq::<Action>::empty())
        },
        None => (pre, Seq::<Action>::empty()),
    }
}

/// The session after a driver that does as it is told has handed it a row
/// of what the stream gave, each after the actions of the one before were
/// performed without a failure, and all the actions performed, in order.
pub open spec fn served(pre: SessionView, inbound: Seq<Option<Result<Frame, String>>>) -> (
    SessionView,
    Seq<Action>,
)
    decreases inbound.len(),
{
    if inbound.len() == 0 || !pre.awaiting_frame() {
        (pre, Seq::<Action>::empty())
    } else {
        let taken = carried_out(receive_step(pre, inbound[0]).0);
        let rest = served(taken.0, inbound.drop_first());
        (rest.0, taken.1 + rest.1)
    }
}

/// The command that the stream gave, where it gave a text frame that holds
/// one.
pub open spec fn command_of(given: Option<Result<Frame, String>>) -> Option<RemoteCommand> {
    match given {
        Some(Ok(Frame::Text { text, read })) => match reading(text@, read) {
            Ok(command) => Some(command),
            Err(_) => None,
        },
        _ => None,
    }
}

/// Whether the stream gave its end: a close frame, an error of the
/// transport, or nothing more.
pub open spec fn ends_stream(given: Option<Result<Frame, String>>) -> bool {
    match given {
        None => true,
        Some(Err(_)) => true,
        Some(Ok(Frame::Close)) => true,
        Some(Ok(_)) => false,
    }
}

/// The first end of the stream in a row of what the stream gave.
pub open spec fn first_end(inbound: Seq<Option<Result<Frame, String>>>) -> Option<
    Option<Result<Frame, String>>,
>
    decreases inbound.len(),
{
    if inbound.len() == 0 {
        None
    } else if ends_stream(inbound[0]) {
        Some(inbound[0])
    } else {
        first_end(inbound.drop_first())
    }
}

/// The actions of the commands in a row of what the stream gave, in the
/// order in which they came and up to the first end of the stream.
pub open spec fn actions_due(inbound: Seq<Option<Result<Frame, String>>>) -> Seq<Action>
    decreases inbound.len(),
{
    if inbound.len() == 0 || ends_stream(inbound[0]) {
        Seq::<Action>::empty()
    } else {
        (match command_of(inbound[0]) {
            Some(command) => plan_of(command),
            None => Seq::<Action>::empty(),
        }) + actions_due(inbound.drop_first())
    }
}

/// Where no action fails, the actions of the command in flight that are not
/// done yet are performed in the order of its plan, and the session is then
/// ready for the next frame.
pub proof fn lemma_command_is_carried_out(pre: SessionView)
    requires
        pre.wf(),
        pre.in_flight is Some,
    ensures
        ({
            let (command, done) = pre.in_flight->0;
            carried_out(pre) == (
                SessionView { in_flight: None, ..pre },
                plan_of(command).skip(done),
            )
        }),
    decreases
        (match pre.in_flight {
            Some((command, done)) => plan_of(command).len() - done,
            None => 0,
        }),
{
    let (command, done) = pre.in_flight->0;
    let idle = SessionView { in_flight: None, ..pre };
    let post = complete_step(pre, Ok(())).0;
    let rest = carried_out(post);
    assert(carried_out(pre) == (rest.0, seq![plan_of(command)[done]] + rest.1));
    if done + 1 < plan_of(command).len() {
        lemma_command_is_carried_out(post);
        assert(rest.0 == idle);
        assert(seq![plan_of(command)[done]] + plan_of(command).skip(done + 1) =~= plan_of(
            command,
        ).skip(done));
    } else {
        assert(post == idle);
        assert(rest == (idle, Seq::<Action>::empty()));
        assert(seq![plan_of(command)[done]] + Seq::<Action>::empty() =~= plan_of(command).skip(
            done,
        ));
    }
}

/// Taking what the stream gave and performing what is asked for, without a
/// failure, performs the actions of the command that it gave, if it gave
/// one, and no other. Unless the stream gave its end, the session is then
/// where it was.
pub proof fn lemma_frame_is_served(pre: SessionView, given: Option<Result<Frame, String>>)
    requires
        pre.wf(),
        pre.awaiting_frame(),
    ensures
        carried_out(receive_step(pre, given).0).1 == (match command_of(given) {
            Some(command) => plan_of(command),
            None => Seq::<Action>::empty(),
        }),
        !ends_stream(given) ==> carried_out(receive_step(pre, given).0).0 == pre,
        ends_stream(given) ==> carried_out(receive_step(pre, given).0).0 == receive_step(
            pre,
            given,
        ).0 && receive_step(pre, given).0.state != SessionState::Active,
{
    let taken = receive_step(pre, given).0;
    match command_of(given) {
        Some(command) => {
            if taken.in_flight is Some {
                lemma_command_is_carried_out(taken);
                assert(plan_of(command).skip(0) =~= plan_of(command));
            } else {
                assert(plan_of(command) =~= Seq::<Action>::empty());
            }
        },
        None => {},
    }
}

/// Over a whole session in which no action fails, the actions performed are
/// those of every text frame that holds a command, frame by frame in the
/// order in which the frames came: none is left out, none is performed twice,
/// and none is performed before the actions of an earlier frame are done.
/// The first end of the stream ends the session as it would have ended a
/// session that had taken nothing before; what comes after it is not taken.
pub proof fn lemma_commands_are_served_in_order(
    pre: SessionView,
    inbound: Seq<Option<Result<Frame, String>>>,
)
    requires
        pre.wf(),
        pre.awaiting_frame(),
    ensures
        served(pre, inbound).1 == actions_due(inbound),
        served(pre, inbound).0 == (match first_end(inbound) {
            Some(end) => receive_step(pre, end).0,
            None => pre,
        }),
    decreases inbound.len(),
{
    if inbound.len() > 0 {
        let taken = carried_out(receive_step(pre, inbound[0]).0);
        lemma_frame_is_served(pre, inbound[0]);
        if ends_stream(inbound[0]) {
            assert(served(taken.0, inbound.drop_first()) == (taken.0, Seq::<Action>::empty()));
            assert(taken.1 + Seq::<Action>::empty() =~= taken.1);
        } else {
            lemma_commands_are_served_in_order(pre, inbound.drop_first());
        }
    }
}

} // verus!
