//! The life of one controlled browser process.
//!
//! A [`BrowserSession`] records what has happened to a browser that the
//! caller drives: it is launched at most once, it is live until it is
//! closed, and closing it again changes nothing.  While a session is live a
//! background task drains the events of its process; closing the session
//! stops that task.
//!
//! The caller carries out the operations of a session and reports how each
//! ended; [`Operation::result`] says what that means for the session's
//! owner.

use crate::error::SessionError;
use vstd::prelude::*;

verus! {

/// Where a browser session is in its life.
#[derive(Clone, Copy, Debug, PartialEq, Eq, Structural)]
pub enum SessionStatus {
    /// No process has been started for the session.
    Unlaunched,
    /// The process runs, and its events are being drained.
    Live,
    /// The process was asked to shut down; the session can do no more.
    Closed,
}

/// How an operation on the browser ended.
#[derive(Clone, Copy, Debug, PartialEq, Eq, Structural)]
pub enum Outcome {
    /// The operation was carried out.
    Done,
    /// The browser reported a failure.
    Failed,
    /// The operation did not end within its timeout.
    TimedOut,
}

/// The operations of a browser session.
#[derive(Clone, Copy, Debug, PartialEq, Eq, Structural)]
pub enum Operation {
    /// Starting the process.
    Launch,
    /// Opening a page.
    OpenPage,
    /// Replacing the content of a page.
    SetContent,
    /// Evaluating a script in a page.
    Evaluate,
    /// Navigating a page to a URL.
    Navigate,
    /// Shutting the process down.
    Close,
}

/// The error with which an operation fails.
pub open spec fn operation_error(operation: Operation) -> SessionError {
    match operation {
        Operation::Launch => SessionError::LaunchFailed,
        Operation::OpenPage => SessionError::PageCreationFailed,
        Operation::SetContent => SessionError::RenderFailed,
        Operation::Evaluate => SessionError::EvalFailed,
        Operation::Navigate => SessionError::NavigationFailed,
        Operation::Close => SessionError::CloseFailed,
    }
}

/// What an operation that ended with `outcome` yields: success when it was
/// carried out, and its own error when it failed or did not end within its
/// timeout.
pub open spec fn operation_result(operation: Operation, outcome: Outcome) -> Result<
    (),
    SessionError,
> {
    match outcome {
        Outcome::Done => Ok(()),
        _ => Err(operation_error(operation)),
    }
}

impl Operation {
    /// The error with which the operation fails.
    pub fn error(self) -> (e: SessionError)
        ensures
            e == operation_error(self),
    {
        match self {
            Operation::Launch => SessionError::LaunchFailed,
            Operation::OpenPage => SessionError::PageCreationFailed,
            Operation::SetContent => SessionError::RenderFailed,
            Operation::Evaluate => SessionError::EvalFailed,
            Operation::Navigate => SessionError::NavigationFailed,
            Operation::Close => SessionError::CloseFailed,
        }
    }

    /// What the operation yields when it ended with `outcome`.  A timeout
    /// is a failure like any other; no operation hangs.
    pub fn result(self, outcome: Outcome) -> (r: Result<(), SessionError>)
        ensures
            r == operation_result(self, outcome),
    {
        match outcome {
            Outcome::Done => Ok(()),
            _ => Err(self.error()),
        }
    }
}

/// What the caller has to do to carry out a close.
#[derive(Clone, Copy, Debug, PartialEq, Eq, Structural)]
pub enum CloseAction {
    /// Nothing: the session holds no process.
    Nothing,
    /// Shut the process down and end the task that drains its events.
    Shutdown,
}

/// What the stream of a browser's events yielded to the task that drains
/// it.
#[derive(Clone, Copy, Debug, PartialEq, Eq, Structural)]
pub enum Drained {
    /// An event that was handled.
    Event,
    /// An event whose handling failed.
    Fault,
    /// Nothing more: the stream has ended.
    End,
}

/// What the draining task does next.
#[derive(Clone, Copy, Debug, PartialEq, Eq, Structural)]
pub enum DrainStep {
    /// Take the next item from the stream.
    Continue,
    /// Log the fault, then take the next item from the stream.
    Report,
    /// End the task.
    Stop,
}

/// One controlled browser process, as far as its life goes.
#[derive(Debug)]
pub struct BrowserSession {
    status: SessionStatus,
}

/// The status after a launch attempt that ended with `outcome`: a session
/// that was never launched becomes live when the process was started;
/// nothing else changes.
pub open spec fn after_launch(status: SessionStatus, outcome: Outcome) -> SessionStatus {
    if status is Unlaunched && outcome is Done {
        SessionStatus::Live
    } else {
        status
    }
}

/// The status after a close, and what the caller has to do for it.
pub open spec fn after_close(status: SessionStatus) -> (SessionStatus, CloseAction) {
    if status is Live {
        (SessionStatus::Closed, CloseAction::Shutdown)
    } else {
        (status, CloseAction::Nothing)
    }
}

/// Whether a session in this status has a task draining its events: it has
/// one exactly while it is live.
pub open spec fn drains(status: SessionStatus) -> bool {
    status is Live
}

/// What the draining task of a session in this status does after the
/// stream yielded `item`.  A fault is reported and never ends the task; the
/// task ends when the stream does, and as soon as the session is no longer
/// live.
pub open spec fn drain_step(status: SessionStatus, item: Drained) -> DrainStep {
    if !drains(status) {
        DrainStep::Stop
    } else {
        match item {
            Drained::Event => DrainStep::Continue,
            Drained::Fault => DrainStep::Report,
            Drained::End => DrainStep::Stop,
        }
    }
}

/// Decides what the draining task of a session does next.
pub fn next_drain_step(status: SessionStatus, item: Drained) -> (step: DrainStep)
    ensures
        step == drain_step(status, item),
{
    match status {
        SessionStatus::Live => match item {
            Drained::Event => DrainStep::Continue,
            Drained::Fault => DrainStep::Report,
            Drained::End => DrainStep::Stop,
        },
        _ => DrainStep::Stop,
    }
}

impl View for BrowserSession {
    type V = SessionStatus;

    closed spec fn view(&self) -> SessionStatus {
        self.status
    }
}

impl BrowserSession {
    /// A session for which no process has been started yet.
    pub fn new() -> (session: BrowserSession)
        ensures
            session@ is Unlaunched,
    {
        BrowserSession { status: SessionStatus::Unlaunched }
    }

    /// Where the session is in its life.
    pub fn status(&self) -> (status: SessionStatus)
        ensures
            status == self@,
    {
        self.status
    }

    /// Whether the session's process runs.
    pub fn is_live(&self) -> (live: bool)
        ensures
            live == (self@ is Live),
    {
        match self.status {
            SessionStatus::Live => true,
            _ => false,
        }
    }

    /// Whether a task is draining the events of the session's process.
    pub fn is_draining(&self) -> (draining: bool)
        ensures
            draining == drains(self@),
    {
        self.is_live()
    }

    /// Records the end of a launch attempt.
    ///
    /// When the process was started and the session was never launched
    /// before, the session is live from now on and its events are drained.
    /// An attempt that failed or timed out, and an attempt on a session
    /// that was launched before, is `LaunchFailed` and changes nothing.
    pub fn launched(&mut self, outcome: Outcome) -> (r: Result<(), SessionError>)
        ensures
            final(self)@ == after_launch(old(self)@, outcome),
            r is Ok <==> (old(self)@ is Unlaunched && outcome is Done),
            r is Err ==> r == Err::<(), _>(SessionError::LaunchFailed),
    {
        match self.status {
            SessionStatus::Unlaunched => {
                let r = Operation::Launch.result(outcome);
                if r.is_ok() {
                    self.status = SessionStatus::Live;
                }
                r
            },
            _ => Err(SessionError::LaunchFailed),
        }
    }

    /// Closes the session and says what the caller has to do for it.
    ///
    /// Closing a live session ends it: its events are no longer drained and
    /// its process has to be shut down.  Closing a session that is not live
    /// succeeds, asks for nothing and changes nothing.
    pub fn close(&mut self) -> (action: CloseAction)
        ensures
            (final(self)@, action) == after_close(old(self)@),
            !drains(final(self)@),
    {
        match self.status {
            SessionStatus::Live => {
                self.status = SessionStatus::Closed;
                CloseAction::Shutdown
            },
            _ => CloseAction::Nothing,
        }
    }
}

/// Closing is idempotent: a second close asks for nothing and leaves the
/// session as the first close left it.
pub proof fn lemma_close_is_idempotent(status: SessionStatus)
    ensures
        after_close(after_close(status).0) == (after_close(status).0, CloseAction::Nothing),
{
}

/// No session that has been closed still drains events, whatever state it
/// was closed in.
pub proof fn lemma_close_stops_draining(status: SessionStatus)
    ensures
        !drains(after_close(status).0),
        after_close(status).1 is Shutdown <==> drains(status),
{
}

/// The draining task does not outlive its session: after a close, whatever
/// the stream yields next, the task stops.
pub proof fn lemma_drain_stops_after_close(status: SessionStatus, item: Drained)
    ensures
        drain_step(after_close(status).0, item) is Stop,
{
}

/// While a session is live, no fault ends its draining task.
pub proof fn lemma_fault_never_stops_a_live_drain(status: SessionStatus)
    requires
        status is Live,
    ensures
        drain_step(status, Drained::Fault) is Report,
        drain_step(status, Drained::Event) is Continue,
{
}

/// A closed session stays closed: neither a launch attempt nor another
/// close brings it back.
pub proof fn lemma_closed_is_final(status: SessionStatus, outcome: Outcome)
    requires
        status is Closed,
    ensures
        after_launch(status, outcome) is Closed,
        after_close(status).0 is Closed,
{
}

} // verus!
