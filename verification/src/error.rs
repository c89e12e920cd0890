//! The error taxonomy of the listener and the recovery attached to each kind.

use vstd::prelude::*;

verus! {

/// Everything that can go wrong while claiming the channel or handing a
/// payload over.
#[derive(Clone, Copy, Debug, PartialEq, Eq, Structural)]
pub enum ListenerError {
    /// The address is held by a live owner. This is the expected path of
    /// every launch but the first.
    ClaimFailed,
    /// The address is held, but its owner does not answer.
    StaleLock,
    /// No owner could be reached within the connect timeout.
    Unreachable,
    /// A frame could not be decoded.
    Malformed,
    /// The peer was too slow.
    Timeout,
    /// The channel primitive itself is unusable, for example for want of
    /// permissions.
    IoFatal,
    /// The peer went away in the middle of a transfer, or the listener has
    /// been closed.
    Closed,
    /// The owner is paused and every attempt was told to retry later.
    Busy,
    /// The payload does not fit in one frame.
    Oversized,
    /// The operation needs ownership of the channel.
    NotOwner,
}

/// What is done about an error.
#[derive(Clone, Copy, Debug, PartialEq, Eq, Structural)]
pub enum Recovery {
    /// Nothing is wrong: run as a secondary and hand the payload over.
    BecomeSecondary,
    /// Evict the stale claim and bind again.
    Reclaim,
    /// Try to claim the address once; the payload is then delivered in this
    /// process.
    ClaimAndDeliverLocally,
    /// Drop the connection at hand and keep accepting.
    DropConnection,
    /// Wait a little and connect again, a bounded number of times.
    BackOffAndRetry,
    /// Warn the application, which goes on without the single-instance
    /// guarantee.
    RunUnguarded,
    /// Hand the error to the caller.
    Report,
}

impl ListenerError {
    /// The recovery that belongs to each kind of error.
    pub open spec fn recovery_of(self) -> Recovery {
        match self {
            ListenerError::ClaimFailed => Recovery::BecomeSecondary,
            ListenerError::StaleLock => Recovery::Reclaim,
            ListenerError::Unreachable => Recovery::ClaimAndDeliverLocally,
            ListenerError::Malformed => Recovery::DropConnection,
            ListenerError::Timeout => Recovery::DropConnection,
            ListenerError::Closed => Recovery::DropConnection,
            ListenerError::Busy => Recovery::BackOffAndRetry,
            ListenerError::IoFatal => Recovery::RunUnguarded,
            ListenerError::Oversized => Recovery::Report,
            ListenerError::NotOwner => Recovery::Report,
        }
    }

    /// Whether the error concerns one connection only. Such an error never
    /// ends the accept loop and never touches another connection.
    pub open spec fn per_connection(self) -> bool {
        self.recovery_of() == Recovery::DropConnection
    }

    /// Whether the error is recovered inside the library, without the
    /// application seeing more than a warning.
    pub open spec fn recoverable(self) -> bool {
        self.recovery_of() != Recovery::Report
    }

    /// The recovery that belongs to this error.
    pub fn recovery(self) -> (r: Recovery)
        ensures
            r == self.recovery_of(),
    {
        match self {
            ListenerError::ClaimFailed => Recovery::BecomeSecondary,
            ListenerError::StaleLock => Recovery::Reclaim,
            ListenerError::Unreachable => Recovery::ClaimAndDeliverLocally,
            ListenerError::Malformed | ListenerError::Timeout | ListenerError::Closed => {
                Recovery::DropConnection
            },
            ListenerError::Busy => Recovery::BackOffAndRetry,
            ListenerError::IoFatal => Recovery::RunUnguarded,
            ListenerError::Oversized | ListenerError::NotOwner => Recovery::Report,
        }
    }

    /// Whether the error concerns one connection only.
    pub fn is_per_connection(self) -> (b: bool)
        ensures
            b == self.per_connection(),
            b == (self == ListenerError::Malformed || self == ListenerError::Timeout || self
                == ListenerError::Closed),
    {
        match self {
            ListenerError::Malformed | ListenerError::Timeout | ListenerError::Closed => true,
            _ => false,
        }
    }

    /// Whether the error is recovered inside the library.
    pub fn is_recoverable(self) -> (b: bool)
        ensures
            b == self.recoverable(),
            b == (self != ListenerError::Oversized && self != ListenerError::NotOwner),
    {
        match self {
            ListenerError::Oversized | ListenerError::NotOwner => false,
            _ => true,
        }
    }

    /// The text that stands for each kind of error in a report.
    pub open spec fn message_of(self) -> Seq<char> {
        match self {
            ListenerError::ClaimFailed => "address is held by a live owner"@,
            ListenerError::StaleLock => "address is held by an owner that does not answer"@,
            ListenerError::Unreachable => "no owner could be reached"@,
            ListenerError::Malformed => "frame could not be decoded"@,
            ListenerError::Timeout => "peer was too slow"@,
            ListenerError::IoFatal => "channel is unusable"@,
            ListenerError::Closed => "channel was closed"@,
            ListenerError::Busy => "owner is paused"@,
            ListenerError::Oversized => "payload does not fit in one frame"@,
            ListenerError::NotOwner => "operation needs ownership of the channel"@,
        }
    }

    /// A short text for reports and logs.
    pub fn message(self) -> (s: &'static str)
        ensures
            s@ == self.message_of(),
    {
        match self {
            ListenerError::ClaimFailed => "address is held by a live owner",
            ListenerError::StaleLock => "address is held by an owner that does not answer",
            ListenerError::Unreachable => "no owner could be reached",
            ListenerError::Malformed => "frame could not be decoded",
            ListenerError::Timeout => "peer was too slow",
            ListenerError::IoFatal => "channel is unusable",
            ListenerError::Closed => "channel was closed",
            ListenerError::Busy => "owner is paused",
            ListenerError::Oversized => "payload does not fit in one frame",
            ListenerError::NotOwner => "operation needs ownership of the channel",
        }
    }
}

} // verus!
