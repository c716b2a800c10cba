//! One logical receive or send on a non-blocking descriptor.
//!
//! A transfer waits until the reactor reports the descriptor ready, makes one
//! non-blocking attempt, and ends with the byte count of that attempt. When
//! the attempt would block, the readiness that was reported is stale: the
//! transfer has it cleared for its own direction and waits afresh. Every
//! other failure ends the transfer.

use vstd::prelude::*;
use crate::error::{OsError, OsErrorKind, OsErrorView, SocketError};

verus! {

/// The direction of a transfer. Readiness is kept per direction.
#[derive(Debug, Clone, Copy, PartialEq, Eq, Structural)]
pub enum Direction {
    Read,
    Write,
}

/// Where a transfer stands.
#[derive(Debug, Clone, Copy, PartialEq, Eq, Structural)]
pub enum Phase {
    /// Suspended until the reactor reports readiness.
    AwaitReady,
    /// Readiness was reported: one non-blocking attempt is due.
    Attempt,
    /// The attempt would have blocked: the stale readiness is to be cleared.
    Rearm,
    /// Ended with the byte count of the last attempt.
    Done(usize),
    /// Ended with the error code of the call that failed.
    Failed(i32),
}

/// What the driver has to do for a transfer.
#[derive(Debug, Clone, Copy, PartialEq, Eq, Structural)]
pub enum TransferAction {
    /// Suspend until `fd` is ready in `direction`.
    AwaitReady { fd: i32, direction: Direction },
    /// Make one non-blocking transfer of up to `len` bytes on `fd`.
    Attempt { fd: i32, direction: Direction, len: usize },
    /// Clear the readiness that was reported for `direction`, and no other.
    ClearReady { fd: i32, direction: Direction },
    /// Nothing: the transfer has ended.
    Finished,
}

/// What the driver reports back.
#[derive(Debug, Clone, PartialEq, Eq)]
pub enum TransferEvent {
    /// The reactor reported readiness.
    Ready,
    /// The attempt moved this many bytes.
    Transferred(usize),
    /// The readiness was cleared.
    Cleared,
    /// Waiting or the attempt failed.
    Failed(OsError),
}

/// The mathematical value of a [`TransferEvent`].
pub enum TransferEventView {
    Ready,
    Transferred(usize),
    Cleared,
    Failed(OsErrorView),
}

impl View for TransferEvent {
    type V = TransferEventView;

    open spec fn view(&self) -> TransferEventView {
        match self {
            TransferEvent::Ready => TransferEventView::Ready,
            TransferEvent::Transferred(count) => TransferEventView::Transferred(*count),
            TransferEvent::Cleared => TransferEventView::Cleared,
            TransferEvent::Failed(cause) => TransferEventView::Failed(cause@),
        }
    }
}

/// The mathematical value of a [`Transfer`].
pub struct TransferView {
    pub fd: i32,
    pub direction: Direction,
    pub len: usize,
    pub phase: Phase,
}

impl TransferView {
    /// A transfer that has not begun to wait.
    pub open spec fn start(fd: i32, direction: Direction, len: usize) -> TransferView {
        TransferView { fd, direction, len, phase: Phase::AwaitReady }
    }

    /// Whether `event` answers what the transfer asked for.
    pub open spec fn expects(self, event: TransferEventView) -> bool {
        match (self.phase, event) {
            (Phase::AwaitReady, TransferEventView::Ready) => true,
            (Phase::AwaitReady, TransferEventView::Failed(_)) => true,
            (Phase::Attempt, TransferEventView::Transferred(count)) => count <= self.len,
            (Phase::Attempt, TransferEventView::Failed(_)) => true,
            (Phase::Rearm, TransferEventView::Cleared) => true,
            _ => false,
        }
    }

    /// The phase after `event`. An event that was not asked for changes
    /// nothing.
    pub open spec fn next_phase(self, event: TransferEventView) -> Phase {
        match (self.phase, event) {
            (Phase::AwaitReady, TransferEventView::Ready) => Phase::Attempt,
            (Phase::AwaitReady, TransferEventView::Failed(cause)) => Phase::Failed(cause.code),
            (Phase::Attempt, TransferEventView::Transferred(count)) => if count <= self.len {
                Phase::Done(count)
            } else {
                self.phase
            },
            (Phase::Attempt, TransferEventView::Failed(cause)) => if cause.kind
                == OsErrorKind::WouldBlock {
                Phase::Rearm
            } else {
                Phase::Failed(cause.code)
            },
            (Phase::Rearm, TransferEventView::Cleared) => Phase::AwaitReady,
            _ => self.phase,
        }
    }

    /// The transfer after `event`: only the phase moves.
    pub open spec fn next(self, event: TransferEventView) -> TransferView {
        TransferView { phase: self.next_phase(event), ..self }
    }

    /// The transfer after a run of events, oldest first.
    pub open spec fn run(self, events: Seq<TransferEventView>) -> TransferView
        decreases events.len(),
    {
        if events.len() == 0 {
            self
        } else {
            self.run(events.drop_last()).next(events.last())
        }
    }

    /// What the driver is asked to do.
    pub open spec fn action(self) -> TransferAction {
        match self.phase {
            Phase::AwaitReady => TransferAction::AwaitReady {
                fd: self.fd,
                direction: self.direction,
            },
            Phase::Attempt => TransferAction::Attempt {
                fd: self.fd,
                direction: self.direction,
                len: self.len,
            },
            Phase::Rearm => TransferAction::ClearReady { fd: self.fd, direction: self.direction },
            Phase::Done(_) | Phase::Failed(_) => TransferAction::Finished,
        }
    }

    /// Whether the transfer has ended.
    pub open spec fn finished(self) -> bool {
        self.phase is Done || self.phase is Failed
    }
}

impl TransferView {
    /// The descriptor, the direction and the buffer size of a transfer never
    /// change, and whatever the driver is asked to do names that descriptor
    /// and that direction: a receive never touches the readiness of the
    /// write side, nor a send that of the read side.
    pub proof fn lemma_direction_is_kept(self, events: Seq<TransferEventView>)
        ensures
            self.run(events).fd == self.fd,
            self.run(events).direction == self.direction,
            self.run(events).len == self.len,
            match self.run(events).action() {
                TransferAction::AwaitReady { fd, direction } => fd == self.fd && direction
                    == self.direction,
                TransferAction::Attempt { fd, direction, len } => fd == self.fd && direction
                    == self.direction && len == self.len,
                TransferAction::ClearReady { fd, direction } => fd == self.fd && direction
                    == self.direction,
                TransferAction::Finished => self.run(events).finished(),
            },
        decreases events.len(),
    {
        if events.len() > 0 {
            self.lemma_direction_is_kept(events.drop_last());
        }
    }

    /// A transfer that has ended stays as it is, whatever is reported later.
    pub proof fn lemma_finished_is_final(self, events: Seq<TransferEventView>)
        requires
            self.finished(),
        ensures
            self.run(events) == self,
        decreases events.len(),
    {
        if events.len() > 0 {
            self.lemma_finished_is_final(events.drop_last());
        }
    }

    /// An attempt is made only right after the reactor reported readiness to
    /// a waiting transfer: no retry goes round the suspension point.
    pub proof fn lemma_attempt_follows_readiness(self, event: TransferEventView)
        requires
            self.phase != Phase::Attempt,
            self.next(event).phase == Phase::Attempt,
        ensures
            self.phase == Phase::AwaitReady,
            event == TransferEventView::Ready,
    {
    }

    /// An attempt that would block is never the end of a transfer: the
    /// readiness of its direction is cleared, and then it waits again.
    pub proof fn lemma_would_block_rearms(self, cause: OsErrorView)
        requires
            self.phase == Phase::Attempt,
            cause.kind == OsErrorKind::WouldBlock,
        ensures
            self.next(TransferEventView::Failed(cause)).action() == (TransferAction::ClearReady {
                fd: self.fd,
                direction: self.direction,
            }),
            self.next(TransferEventView::Failed(cause)).next(TransferEventView::Cleared).action()
                == (TransferAction::AwaitReady { fd: self.fd, direction: self.direction }),
    {
    }

    /// A byte count is the count of one attempt: a transfer ends with `count`
    /// only where the driver reported exactly that count for an attempt the
    /// transfer had asked for, and the count fits the buffer.
    pub proof fn lemma_count_is_of_one_attempt(self, events: Seq<TransferEventView>, count: usize)
        requires
            !self.finished(),
            self.run(events).phase == Phase::Done(count),
        ensures
            count <= self.len,
            exists|i: int|
                0 <= i < events.len() && self.run(#[trigger] events.take(i)).phase
                    == Phase::Attempt && events[i] == TransferEventView::Transferred(count),
        decreases events.len(),
    {
        let before = self.run(events.drop_last());
        self.lemma_direction_is_kept(events.drop_last());
        if before.phase == Phase::Done(count) {
            self.lemma_count_is_of_one_attempt(events.drop_last(), count);
            let i = choose|i: int|
                0 <= i < events.drop_last().len() && self.run(
                    #[trigger] events.drop_last().take(i),
                ).phase == Phase::Attempt && events.drop_last()[i] == TransferEventView::Transferred(
                    count,
                );
            assert(events.drop_last().take(i) =~= events.take(i));
        } else {
            let i = events.len() - 1;
            assert(events.take(i) =~= events.drop_last());
        }
    }

    /// A transfer fails only with the code of a failure the driver reported,
    /// and never with that of an attempt that would have blocked.
    pub proof fn lemma_failure_is_reported(self, events: Seq<TransferEventView>, code: i32)
        requires
            !self.finished(),
            self.run(events).phase == Phase::Failed(code),
        ensures
            exists|i: int|
                0 <= i < events.len() && (#[trigger] events[i] matches TransferEventView::Failed(
                    cause,
                ) && cause.code == code && !(self.run(events.take(i)).phase == Phase::Attempt
                    && cause.kind == OsErrorKind::WouldBlock)),
        decreases events.len(),
    {
        let before = self.run(events.drop_last());
        if before.phase == Phase::Failed(code) {
            self.lemma_failure_is_reported(events.drop_last(), code);
            let i = choose|i: int|
                0 <= i < events.drop_last().len() && (
                #[trigger] events.drop_last()[i] matches TransferEventView::Failed(cause)
                    && cause.code == code && !(self.run(events.drop_last().take(i)).phase
                    == Phase::Attempt && cause.kind == OsErrorKind::WouldBlock));
            assert(events.drop_last().take(i) =~= events.take(i));
            assert(events[i] == events.drop_last()[i]);
        } else {
            let i = events.len() - 1;
            assert(events.take(i) =~= events.drop_last());
            assert(events[i] == events.last());
        }
    }
}

/// One logical receive or send in progress.
#[derive(Debug)]
pub struct Transfer {
    fd: i32,
    direction: Direction,
    len: usize,
    phase: Phase,
}

impl View for Transfer {
    type V = TransferView;

    closed spec fn view(&self) -> TransferView {
        TransferView { fd: self.fd, direction: self.direction, len: self.len, phase: self.phase }
    }
}

impl Transfer {
    /// Begins a transfer of up to `len` bytes on `fd`.
    pub fn new(fd: i32, direction: Direction, len: usize) -> (transfer: Transfer)
        ensures
            transfer@ == TransferView::start(fd, direction, len),
    {
        Transfer { fd, direction, len, phase: Phase::AwaitReady }
    }

    /// The descriptor the transfer runs on.
    pub fn descriptor(&self) -> (fd: i32)
        ensures
            fd == self@.fd,
    {
        self.fd
    }

    /// The direction of the transfer.
    pub fn direction(&self) -> (direction: Direction)
        ensures
            direction == self@.direction,
    {
        self.direction
    }

    /// The size of the caller's buffer.
    pub fn len(&self) -> (len: usize)
        ensures
            len == self@.len,
    {
        self.len
    }

    /// Where the transfer stands.
    pub fn phase(&self) -> (phase: Phase)
        ensures
            phase == self@.phase,
    {
        self.phase
    }

    /// What the driver has to do now.
    pub fn action(&self) -> (action: TransferAction)
        ensures
            action == self@.action(),
    {
        match self.phase {
            Phase::AwaitReady => TransferAction::AwaitReady {
                fd: self.fd,
                direction: self.direction,
            },
            Phase::Attempt => TransferAction::Attempt {
                fd: self.fd,
                direction: self.direction,
                len: self.len,
            },
            Phase::Rearm => TransferAction::ClearReady { fd: self.fd, direction: self.direction },
            Phase::Done(_) => TransferAction::Finished,
            Phase::Failed(_) => TransferAction::Finished,
        }
    }

    /// Takes the outcome of the last action. Returns whether the event was
    /// the one asked for; any other event is ignored.
    pub fn advance(&mut self, event: TransferEvent) -> (accepted: bool)
        ensures
            accepted == old(self)@.expects(event@),
            final(self)@ == old(self)@.next(event@),
    {
        match self.phase {
            Phase::AwaitReady => match event {
                TransferEvent::Ready => {
                    self.phase = Phase::Attempt;
                    true
                },
                TransferEvent::Failed(cause) => {
                    self.phase = Phase::Failed(cause.code);
                    true
                },
                _ => false,
            },
            Phase::Attempt => match event {
                TransferEvent::Transferred(count) => {
                    if count <= self.len {
                        self.phase = Phase::Done(count);
                        true
                    } else {
                        false
                    }
                },
                TransferEvent::Failed(cause) => {
                    match cause.kind {
                        OsErrorKind::WouldBlock => {
                            self.phase = Phase::Rearm;
                        },
                        _ => {
                            self.phase = Phase::Failed(cause.code);
                        },
                    }
                    true
                },
                _ => false,
            },
            Phase::Rearm => match event {
                TransferEvent::Cleared => {
                    self.phase = Phase::AwaitReady;
                    true
                },
                _ => false,
            },
            _ => false,
        }
    }

    /// The outcome, once the transfer has ended: the byte count of the one
    /// attempt that went through, or the error of the call that failed.
    pub fn result(&self) -> (result: Option<Result<usize, SocketError>>)
        ensures
            match self@.phase {
                Phase::Done(count) => result == Some(Ok::<usize, SocketError>(count)),
                Phase::Failed(code) => result == Some(
                    Err::<usize, SocketError>(SocketError::Os(code)),
                ),
                _ => result is None,
            },
    {
        match self.phase {
            Phase::Done(count) => Some(Ok(count)),
            Phase::Failed(code) => Some(Err(SocketError::Os(code))),
            _ => None,
        }
    }
}

} // verus!
