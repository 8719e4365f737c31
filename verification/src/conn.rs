//! The connection lifecycle: the decisions of the reader/writer thread
//! pair that shares one socket.
//!
//! A connection owns two long-lived loops.  Each iteration they consult
//! shared state — a shutdown flag, an error flag, and whether the socket
//! handle is still held — and an event reported by the I/O layer, and
//! decide whether to go on or stop.  The flags are monotonic: once set
//! they stay set, so cancellation is cooperative and never retracted.
//! The I/O layer runs the loops and performs the reads, writes, sleeps
//! and joins; every decision it acts on is taken here.

use vstd::prelude::*;

verus! {

/// The phase a connection is in, derived from its shared state.
#[derive(Debug, Clone, Copy, PartialEq, Eq, Structural)]
pub enum Lifecycle {
    /// Both loops run; no shutdown requested, no error observed.
    Active,
    /// Shutdown or an error was flagged; the loops are winding down but
    /// the socket handle has not been taken yet.
    Draining,
    /// The socket handle has been taken and closed; terminal.
    Closed,
}

/// What one reader-loop iteration yielded, as the I/O layer reports it.
#[derive(Debug, Clone, Copy, PartialEq, Eq, Structural)]
pub enum ReadEvent {
    /// A frame was decoded and handed to the consumer.
    Frame,
    /// A frame was decoded but the consumer has dropped its channel.
    ForwardFailed,
    /// The read would block; try again after a short sleep.
    WouldBlock,
    /// The read timed out; timeouts only exist so the flags are re-checked.
    TimedOut,
    /// The peer closed, reset or aborted the connection.
    ConnectionLost,
    /// Some other I/O failure.
    IoFailure,
    /// One malformed line; the protocol is forward-compatible, so the
    /// line is dropped and reading goes on.
    BadFrame,
}

/// What the writer loop found when polling for the next command.
#[derive(Debug, Clone, Copy, PartialEq, Eq, Structural)]
pub enum WriteEvent {
    /// A command arrived; `quit` marks the terminal quit command.
    Received { quit: bool },
    /// The poll timed out; re-check the flags and poll again.
    TimedOut,
    /// The command channel was dropped by its sender.
    Disconnected,
}

/// What the writer loop must do with a polled event.
#[derive(Debug, Clone, Copy, PartialEq, Eq, Structural)]
pub enum WriterAction {
    /// Serialize and write the command; `last` means exit afterwards
    /// whether or not the write succeeded.
    Write { last: bool },
    /// Nothing to do this round; poll again.
    Continue,
    /// Exit the loop.
    Stop,
}

/// Whether a loop goes on after an iteration.
#[derive(Debug, Clone, Copy, PartialEq, Eq, Structural)]
pub enum LoopAction {
    Continue,
    Stop,
}

/// What a non-destructive peek at the socket reported, for the liveness
/// check.
#[derive(Debug, Clone, Copy, PartialEq, Eq, Structural)]
pub enum PeekOutcome {
    /// Data is waiting to be read.
    Data,
    /// No data waiting, but the socket is healthy.
    WouldBlock,
    /// The peer has closed, reset or aborted the connection.
    Lost,
    /// Some other error; assumed healthy to avoid false negatives.
    OtherError,
    /// The socket handle was already taken during shutdown.
    NoSocket,
    /// The handle's lock was busy; assumed healthy rather than blocking.
    LockBusy,
}

/// The shared state of one connection: two monotonic flags and the
/// presence of the jointly owned socket handle.
#[derive(Debug, Clone, Copy, PartialEq, Eq, Structural)]
pub struct ConnectionState {
    /// Set once by whoever asks the connection to wind down.
    pub shutdown_requested: bool,
    /// Set once by whichever loop first observes a connection-level error.
    pub error_observed: bool,
    /// Whether the original socket handle is still held; teardown takes
    /// it exactly once.
    pub socket_present: bool,
}

/// The state every teardown leaves behind: both flags set, the socket
/// handle gone.
pub open spec fn teardown_spec(s: ConnectionState) -> ConnectionState {
    ConnectionState { shutdown_requested: true, error_observed: true, socket_present: false }
}

impl ConnectionState {
    pub open spec fn spec_lifecycle(self) -> Lifecycle {
        if !self.shutdown_requested && !self.error_observed {
            Lifecycle::Active
        } else if self.socket_present {
            Lifecycle::Draining
        } else {
            Lifecycle::Closed
        }
    }

    /// The phase the connection is in.
    pub fn lifecycle(&self) -> (r: Lifecycle)
        ensures
            r == self.spec_lifecycle(),
    {
        if !self.shutdown_requested && !self.error_observed {
            Lifecycle::Active
        } else if self.socket_present {
            Lifecycle::Draining
        } else {
            Lifecycle::Closed
        }
    }

    /// The state of a freshly established connection.
    pub fn new() -> (s: ConnectionState)
        ensures
            s == (ConnectionState {
                shutdown_requested: false,
                error_observed: false,
                socket_present: true,
            }),
            s.spec_lifecycle() == Lifecycle::Active,
    {
        ConnectionState { shutdown_requested: false, error_observed: false, socket_present: true }
    }

    /// Ask the connection to wind down.  Monotonic: never cleared again.
    pub fn request_shutdown(&mut self)
        ensures
            *final(self) == (ConnectionState { shutdown_requested: true, ..*old(self) }),
    {
        self.shutdown_requested = true;
    }

    /// Record a connection-level error.  Monotonic: never cleared again.
    pub fn observe_error(&mut self)
        ensures
            *final(self) == (ConnectionState { error_observed: true, ..*old(self) }),
    {
        self.error_observed = true;
    }

    /// The check both loops make at the top of every iteration.
    pub fn should_stop(&self) -> (r: bool)
        ensures
            r == (self.shutdown_requested || self.error_observed),
            r == (self.spec_lifecycle() != Lifecycle::Active),
    {
        self.shutdown_requested || self.error_observed
    }

    /// The whole teardown decision, as the destructor and an explicit
    /// disconnect both run it: flag shutdown and error so both loops exit,
    /// and take the socket handle.  The caller closes the real socket in
    /// both directions only when `close` is true — the forced close is
    /// what unblocks a thread sitting in a blocking read or write, since
    /// the flags alone cannot interrupt it.
    pub fn teardown(&mut self) -> (close: bool)
        ensures
            close == old(self).socket_present,
            *final(self) == teardown_spec(*old(self)),
            final(self).spec_lifecycle() == Lifecycle::Closed,
    {
        self.shutdown_requested = true;
        self.error_observed = true;
        let took = self.socket_present;
        self.socket_present = false;
        took
    }

    /// Tearing a connection down twice is the same as tearing it down
    /// once: the state reached is identical, and a second pass finds the
    /// socket handle already taken, so nothing is closed twice.
    pub proof fn lemma_teardown_idempotent(s: ConnectionState)
        ensures
            teardown_spec(teardown_spec(s)) == teardown_spec(s),
            !teardown_spec(s).socket_present,
            teardown_spec(s).spec_lifecycle() == Lifecycle::Closed,
    {
    }

    /// One reader-loop decision.  Connection-level failures set the error
    /// flag (which also stops the writer) and stop the loop; timeouts,
    /// would-blocks and malformed lines are survivable; a consumer that
    /// went away stops the loop without flagging an error.
    pub fn reader_step(&mut self, ev: ReadEvent) -> (a: LoopAction)
        ensures
            final(self).shutdown_requested == old(self).shutdown_requested,
            final(self).socket_present == old(self).socket_present,
            final(self).error_observed == (old(self).error_observed || ev
                == ReadEvent::ConnectionLost || ev == ReadEvent::IoFailure),
            a == (match ev {
                ReadEvent::Frame => LoopAction::Continue,
                ReadEvent::ForwardFailed => LoopAction::Stop,
                ReadEvent::WouldBlock => LoopAction::Continue,
                ReadEvent::TimedOut => LoopAction::Continue,
                ReadEvent::ConnectionLost => LoopAction::Stop,
                ReadEvent::IoFailure => LoopAction::Stop,
                ReadEvent::BadFrame => LoopAction::Continue,
            }),
    {
        match ev {
            ReadEvent::Frame => LoopAction::Continue,
            ReadEvent::ForwardFailed => LoopAction::Stop,
            ReadEvent::WouldBlock => LoopAction::Continue,
            ReadEvent::TimedOut => LoopAction::Continue,
            ReadEvent::ConnectionLost => {
                self.error_observed = true;
                LoopAction::Stop
            },
            ReadEvent::IoFailure => {
                self.error_observed = true;
                LoopAction::Stop
            },
            ReadEvent::BadFrame => LoopAction::Continue,
        }
    }

    /// The writer's decision for a polled event.
    pub open spec fn writer_decision(ev: WriteEvent) -> WriterAction {
        match ev {
            WriteEvent::Received { quit } => WriterAction::Write { last: quit },
            WriteEvent::TimedOut => WriterAction::Continue,
            WriteEvent::Disconnected => WriterAction::Stop,
        }
    }

    /// The writer never drops a command: whatever the flags say, a
    /// polled command always maps to a write decision, so a caller's
    /// commands are lost only if the channel itself goes away.
    pub proof fn lemma_writer_never_drops(ev: WriteEvent)
        ensures
            (ev matches WriteEvent::Received { quit }) ==> Self::writer_decision(ev)
                == (WriterAction::Write { last: ev->quit }),
    {
    }

    /// One writer-loop polling decision.  Every received command is
    /// written — none is dropped — and the quit command is written as the
    /// final message.
    pub fn writer_poll(&self, ev: WriteEvent) -> (a: WriterAction)
        ensures
            a == Self::writer_decision(ev),
    {
        match ev {
            WriteEvent::Received { quit } => WriterAction::Write { last: quit },
            WriteEvent::TimedOut => WriterAction::Continue,
            WriteEvent::Disconnected => WriterAction::Stop,
        }
    }

    /// The writer's decision after a write (and flush) attempt: a failure
    /// flags the error; the loop exits on failure and after the final
    /// quit command regardless of its outcome.
    pub fn writer_wrote(&mut self, ok: bool, was_last: bool) -> (a: LoopAction)
        ensures
            final(self).shutdown_requested == old(self).shutdown_requested,
            final(self).socket_present == old(self).socket_present,
            final(self).error_observed == (old(self).error_observed || !ok),
            a == (if !ok || was_last {
                LoopAction::Stop
            } else {
                LoopAction::Continue
            }),
    {
        if !ok {
            self.error_observed = true;
        }
        if !ok || was_last {
            LoopAction::Stop
        } else {
            LoopAction::Continue
        }
    }

    /// What the non-blocking liveness check reports, given the flags and
    /// a peek at the socket.
    pub open spec fn spec_alive(self, peek: PeekOutcome) -> bool {
        !self.shutdown_requested && !self.error_observed && (match peek {
            PeekOutcome::Data => true,
            PeekOutcome::WouldBlock => true,
            PeekOutcome::Lost => false,
            PeekOutcome::OtherError => true,
            PeekOutcome::NoSocket => false,
            PeekOutcome::LockBusy => true,
        })
    }

    /// The liveness decision behind `is_connected`: false as soon as
    /// either flag is set or the peek shows the peer gone; inconclusive
    /// peeks count as alive so the check never blocks and never reports a
    /// healthy connection dead.
    pub fn connection_alive(&self, peek: PeekOutcome) -> (r: bool)
        ensures
            r == self.spec_alive(peek),
    {
        if self.shutdown_requested || self.error_observed {
            return false;
        }
        match peek {
            PeekOutcome::Data => true,
            PeekOutcome::WouldBlock => true,
            PeekOutcome::Lost => false,
            PeekOutcome::OtherError => true,
            PeekOutcome::NoSocket => false,
            PeekOutcome::LockBusy => true,
        }
    }
}

} // verus!
