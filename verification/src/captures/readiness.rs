//! Suspending sends and receives.
//!
//! A suspending operation tries the blocking primitive once. If that
//! would block, the task is suspended until the system reports the
//! resource ready, and the primitive is tried once more; a wake-up that
//! turns out to be spurious leads to another wait, never to a loop of
//! attempts. The bridge below takes these decisions. Whoever drives it
//! does the waiting.

use crate::capture::Capture;
use vstd::prelude::*;

verus! {

/// Which way an operation moves bytes.
#[derive(Clone, Copy, Debug, PartialEq, Eq, Structural)]
pub enum Direction {
    Receive,
    Send,
}

/// What an operation waits for while it is suspended.
#[derive(Clone, Copy, Debug, PartialEq, Eq, Structural)]
pub enum Interest {
    Readable,
    Writable,
}

/// Where one suspending operation stands.
#[derive(Clone, Copy, Debug, PartialEq, Eq, Structural)]
pub enum Phase {
    /// The blocking primitive has to be tried, once.
    Attempting,
    /// The task is suspended until the resource is reported ready.
    Suspended,
    /// The operation has returned or was cancelled.
    Finished,
}

/// One suspending send or receive on a capture: the decisions between the
/// attempts on the blocking primitive and the waits for readiness.
#[derive(Clone, Copy, Debug, PartialEq, Eq, Structural)]
pub struct Bridge {
    pub direction: Direction,
    pub phase: Phase,
}

/// What happened since the bridge last asked for something.
#[derive(Debug)]
pub enum BridgeEvent {
    /// The blocking primitive was tried and returned this.
    Attempted(Result<usize, std::io::Error>),
    /// The wait for readiness ended: the resource was reported ready, or
    /// the wait itself failed.
    Woken(Result<(), std::io::Error>),
    /// The caller dropped the operation.
    Cancelled,
}

/// What the bridge asks of whoever drives it.
#[derive(Debug)]
pub enum BridgeAction {
    /// Try the blocking primitive once and report what it returned.
    Attempt,
    /// Register this interest, suspend the task until the resource is
    /// reported ready, and report the wake-up.
    Suspend(Interest),
    /// Return this to the caller.
    Complete(Result<usize, std::io::Error>),
    /// Withdraw the registered interest; nothing is returned.
    Release,
    /// The event did not belong to the phase: there is nothing to do.
    Ignore,
}

/// Whether an I/O error says that the operation would have blocked.
pub uninterp spec fn would_block(error: std::io::Error) -> bool;

/// `std::io::Error::kind`, compared with `ErrorKind::WouldBlock`: whether
/// the error says that the operation would have blocked. The kind
/// depends on the error alone.
#[verifier::external_body]
fn is_would_block(error: &std::io::Error) -> (blocked: bool)
    ensures
        blocked == would_block(*error),
{
    error.kind() == std::io::ErrorKind::WouldBlock
}

/// An event that brings neither data nor failure: an attempt that would
/// have blocked, or a report of readiness.
pub open spec fn quiet(event: BridgeEvent) -> bool {
    match event {
        BridgeEvent::Attempted(Err(error)) => would_block(error),
        BridgeEvent::Woken(Ok(_)) => true,
        _ => false,
    }
}

impl Direction {
    /// A receive waits until there is something to read, a send until
    /// there is room to write.
    pub open spec fn spec_interest(self) -> Interest {
        match self {
            Direction::Receive => Interest::Readable,
            Direction::Send => Interest::Writable,
        }
    }

    #[verifier::when_used_as_spec(spec_interest)]
    pub fn interest(self) -> (interest: Interest)
        ensures
            interest == self.spec_interest(),
    {
        match self {
            Direction::Receive => Interest::Readable,
            Direction::Send => Interest::Writable,
        }
    }
}

impl Bridge {
    /// The bridge of an operation that has just started.
    pub open spec fn started(direction: Direction) -> Bridge {
        Bridge { direction, phase: Phase::Attempting }
    }

    /// The bridge of an operation that is over.
    pub open spec fn finished(self) -> Bridge {
        Bridge { direction: self.direction, phase: Phase::Finished }
    }

    /// What follows a failed attempt, given whether the error says
    /// "would block". A would-block suspends the operation on the
    /// interest of its direction; any other error is the operation's
    /// result.
    pub open spec fn next_failed(self, error: std::io::Error, blocked: bool) -> (
        Bridge,
        BridgeAction,
    ) {
        match self.phase {
            Phase::Attempting => if blocked {
                (
                    Bridge { direction: self.direction, phase: Phase::Suspended },
                    BridgeAction::Suspend(self.direction.spec_interest()),
                )
            } else {
                (self.finished(), BridgeAction::Complete(Err(error)))
            },
            _ => (self, BridgeAction::Ignore),
        }
    }

    /// The bridge after an event, and what it asks for next.
    pub open spec fn next(self, event: BridgeEvent) -> (Bridge, BridgeAction) {
        match self.phase {
            Phase::Attempting => match event {
                BridgeEvent::Attempted(Ok(count)) => (
                    self.finished(),
                    BridgeAction::Complete(Ok(count)),
                ),
                BridgeEvent::Attempted(Err(error)) => self.next_failed(error, would_block(error)),
                BridgeEvent::Woken(_) => (self, BridgeAction::Ignore),
                BridgeEvent::Cancelled => (self.finished(), BridgeAction::Release),
            },
            Phase::Suspended => match event {
                BridgeEvent::Woken(Ok(_)) => (
                    Bridge { direction: self.direction, phase: Phase::Attempting },
                    BridgeAction::Attempt,
                ),
                BridgeEvent::Woken(Err(error)) => (
                    self.finished(),
                    BridgeAction::Complete(Err(error)),
                ),
                BridgeEvent::Attempted(_) => (self, BridgeAction::Ignore),
                BridgeEvent::Cancelled => (self.finished(), BridgeAction::Release),
            },
            Phase::Finished => (self, BridgeAction::Ignore),
        }
    }

    /// Whether the bridge asks for an attempt in this direction.
    pub open spec fn awaits_attempt(self, direction: Direction) -> bool {
        self.phase == Phase::Attempting && self.direction == direction
    }

    /// The bridge after a run of events, oldest first.
    pub open spec fn after(self, events: Seq<BridgeEvent>) -> Bridge
        decreases events.len(),
    {
        if events.len() == 0 {
            self
        } else {
            self.after(events.drop_last()).next(events.last()).0
        }
    }

    /// What the bridge asks for after the last event of a run.
    pub open spec fn asked(self, events: Seq<BridgeEvent>) -> BridgeAction
        recommends
            events.len() > 0,
    {
        self.after(events.drop_last()).next(events.last()).1
    }

    /// The blocking primitive is tried again only in answer to a report
    /// of readiness, received while suspended, and then the bridge is
    /// back in its attempting phase, in which no event asks for a further
    /// attempt: one wake-up, one retry, and no spinning.
    pub proof fn law_retry_follows_wake_up(self, event: BridgeEvent)
        ensures
            self.next(event).1 is Attempt ==> {
                &&& self.phase == Phase::Suspended
                &&& event matches BridgeEvent::Woken(Ok(_))
                &&& self.next(event).0.phase == Phase::Attempting
            },
            self.phase == Phase::Attempting ==> !(self.next(event).1 is Attempt),
    {
    }

    /// The operation returns only what an attempt returned that did not
    /// say "would block", or the failure of a wait: a count is the count
    /// of one call of the blocking primitive, unchanged.
    pub proof fn law_return_is_an_outcome(self, event: BridgeEvent)
        ensures
            self.next(event).1 matches BridgeAction::Complete(result) ==> {
                ||| {
                    &&& self.phase == Phase::Attempting
                    &&& event == BridgeEvent::Attempted(result)
                    &&& result matches Err(error) ==> !would_block(error)
                }
                ||| {
                    &&& self.phase == Phase::Suspended
                    &&& result is Err
                    &&& event == BridgeEvent::Woken(Err(result->Err_0))
                }
            },
    {
    }

    /// An attempt that would block never ends the operation: the bridge
    /// suspends on the interest of its direction instead, reading for a
    /// receive and writing for a send.
    pub proof fn law_would_block_suspends(self, error: std::io::Error)
        ensures
            self.phase == Phase::Attempting && would_block(error) ==> self.next(
                BridgeEvent::Attempted(Err(error)),
            ) == (
                Bridge { direction: self.direction, phase: Phase::Suspended },
                BridgeAction::Suspend(self.direction.spec_interest()),
            ),
    {
    }

    /// While nothing arrives, the operation does not return: after any
    /// run of quiet events from its start, the bridge has not finished,
    /// and at no point of the run did it ask to complete or to release.
    pub proof fn law_no_return_while_quiet(direction: Direction, events: Seq<BridgeEvent>)
        requires
            forall|i: int| 0 <= i < events.len() ==> quiet(#[trigger] events[i]),
        ensures
            Bridge::started(direction).after(events).phase != Phase::Finished,
            Bridge::started(direction).after(events).direction == direction,
            forall|k: int|
                0 < k <= events.len() ==> {
                    let asked = #[trigger] Bridge::started(direction).asked(events.take(k));
                    !(asked is Complete) && !(asked is Release)
                },
        decreases events.len(),
    {
        let start = Bridge::started(direction);
        if events.len() > 0 {
            let earlier = events.drop_last();
            Self::law_no_return_while_quiet(direction, earlier);
            assert(quiet(events[events.len() - 1]));
            assert forall|k: int| 0 < k <= events.len() implies {
                let asked = #[trigger] start.asked(events.take(k));
                !(asked is Complete) && !(asked is Release)
            } by {
                if k < events.len() {
                    assert(events.take(k) =~= earlier.take(k));
                    assert(!(start.asked(earlier.take(k)) is Complete));
                } else {
                    assert(events.take(k) =~= events);
                }
            }
        }
    }

    /// Cancelling ends the operation in whatever phase it stands, and
    /// nothing is returned for it. A finished operation ignores every
    /// later event, so nothing of it lingers; the next operation on the
    /// same capture starts as any first one does.
    pub proof fn law_cancellation_finishes(self, later: BridgeEvent)
        ensures
            self.next(BridgeEvent::Cancelled).0 == self.finished(),
            self.phase != Phase::Finished ==> self.next(BridgeEvent::Cancelled).1
                == BridgeAction::Release,
            self.finished().next(later) == (self.finished(), BridgeAction::Ignore),
            Bridge::started(self.direction).phase == Phase::Attempting,
    {
    }

    /// Starts an operation: the blocking primitive is tried at once.
    pub fn begin(direction: Direction) -> (start: (Bridge, BridgeAction))
        ensures
            start == (Bridge::started(direction), BridgeAction::Attempt),
    {
        (Bridge { direction, phase: Phase::Attempting }, BridgeAction::Attempt)
    }

    /// Takes a failed attempt together with its classification.
    pub fn failed(self, error: std::io::Error, blocked: bool) -> (step: (Bridge, BridgeAction))
        ensures
            step == self.next_failed(error, blocked),
    {
        match self.phase {
            Phase::Attempting => if blocked {
                (
                    Bridge { direction: self.direction, phase: Phase::Suspended },
                    BridgeAction::Suspend(self.direction.interest()),
                )
            } else {
                (
                    Bridge { direction: self.direction, phase: Phase::Finished },
                    BridgeAction::Complete(Err(error)),
                )
            },
            _ => (self, BridgeAction::Ignore),
        }
    }

    /// Tries the receive on `capture`, once, if that is what the bridge
    /// asks for, and takes what it returned. A bridge that does not ask
    /// for it leaves the capture and the buffer alone.
    pub fn attempt_recv<C: Capture>(self, capture: &C, buf: &mut [u8]) -> (step: (
        Bridge,
        BridgeAction,
    ))
        ensures
            final(buf)@.len() == old(buf)@.len(),
            self.awaits_attempt(Direction::Receive) ==> exists|
                received: Result<usize, std::io::Error>,
            |
                {
                    &&& capture.receives(old(buf)@, final(buf)@, received)
                    &&& received matches Ok(count) ==> count <= old(buf)@.len()
                    &&& step == #[trigger] self.next(BridgeEvent::Attempted(received))
                },
            !self.awaits_attempt(Direction::Receive) ==> final(buf)@ == old(buf)@ && step == (
                self,
                BridgeAction::Ignore,
            ),
    {
        match (self.phase, self.direction) {
            (Phase::Attempting, Direction::Receive) => {
                let received = capture.recv(buf);
                let step = self.step(BridgeEvent::Attempted(received));
                assert(step == self.next(BridgeEvent::Attempted(received)));
                step
            },
            _ => (self, BridgeAction::Ignore),
        }
    }

    /// Tries the send on `capture`, once, if that is what the bridge asks
    /// for, and takes what it returned. A bridge that does not ask for it
    /// leaves the capture alone.
    pub fn attempt_send<C: Capture>(self, capture: &C, buf: &[u8]) -> (step: (
        Bridge,
        BridgeAction,
    ))
        ensures
            self.awaits_attempt(Direction::Send) ==> exists|sent: Result<usize, std::io::Error>|
                {
                    &&& capture.sends(buf@, sent)
                    &&& sent matches Ok(count) ==> count <= buf@.len()
                    &&& step == #[trigger] self.next(BridgeEvent::Attempted(sent))
                },
            !self.awaits_attempt(Direction::Send) ==> step == (self, BridgeAction::Ignore),
    {
        match (self.phase, self.direction) {
            (Phase::Attempting, Direction::Send) => {
                let sent = capture.send(buf);
                let step = self.step(BridgeEvent::Attempted(sent));
                assert(step == self.next(BridgeEvent::Attempted(sent)));
                step
            },
            _ => (self, BridgeAction::Ignore),
        }
    }

    /// Takes an event and says what to do next.
    pub fn step(self, event: BridgeEvent) -> (step: (Bridge, BridgeAction))
        ensures
            step == self.next(event),
    {
        let over = Bridge { direction: self.direction, phase: Phase::Finished };
        match self.phase {
            Phase::Attempting => match event {
                BridgeEvent::Attempted(Ok(count)) => (over, BridgeAction::Complete(Ok(count))),
                BridgeEvent::Attempted(Err(error)) => {
                    let blocked = is_would_block(&error);
                    self.failed(error, blocked)
                },
                BridgeEvent::Woken(_) => (self, BridgeAction::Ignore),
                BridgeEvent::Cancelled => (over, BridgeAction::Release),
            },
            Phase::Suspended => match event {
                BridgeEvent::Woken(Ok(_)) => (
                    Bridge { direction: self.direction, phase: Phase::Attempting },
                    BridgeAction::Attempt,
                ),
                BridgeEvent::Woken(Err(error)) => (over, BridgeAction::Complete(Err(error))),
                BridgeEvent::Attempted(_) => (self, BridgeAction::Ignore),
                BridgeEvent::Cancelled => (over, BridgeAction::Release),
            },
            Phase::Finished => (self, BridgeAction::Ignore),
        }
    }
}

} // verus!
