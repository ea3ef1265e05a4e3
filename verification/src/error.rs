//! Failure values carried on the error-report channel.
//!
//! Read and write failures never abort the process: they are wrapped with
//! direction context and forwarded, and only a failure marked fatal ends the
//! pump that met it.

use vstd::prelude::*;

verus! {

/// Which leg of the bridge a failure belongs to.
#[derive(Clone, Copy, PartialEq, Eq, Structural, Debug)]
pub enum Direction {
    /// The source-to-core leg: reading and decoding inbound lines.
    IntoCore,
    /// The core-to-sink leg: encoding and writing outbound messages.
    OutOfCore,
}

/// The closed set of failure kinds the bridge can report.
#[derive(Clone, Copy, PartialEq, Eq, Structural, Debug)]
pub enum ErrorKind {
    /// The byte source failed to yield a line.
    ReadFailure,
    /// The byte sink refused a line.
    WriteFailure,
    /// The decoder returned an unexpected message count under the strict policy.
    DecodeAmbiguity,
    /// A channel end was found closed.
    ChannelClosed,
    /// A bounded queue refused an item because it was full.
    QueueSaturated,
}

/// What the surrounding process hands the core about one I/O failure:
/// whether it is fatal for its leg, and a human-readable cause.
#[derive(Debug)]
pub struct IoFailure {
    pub fatal: bool,
    pub detail: String,
}

/// The mathematical image of an [`IoFailure`].
pub struct FailView {
    pub fatal: bool,
    pub detail: Seq<char>,
}

impl View for IoFailure {
    type V = FailView;

    open spec fn view(&self) -> FailView {
        FailView { fatal: self.fatal, detail: self.detail@ }
    }
}

impl Clone for IoFailure {
    fn clone(&self) -> (r: IoFailure)
        ensures
            r@ == self@,
    {
        IoFailure { fatal: self.fatal, detail: self.detail.clone() }
    }
}

/// A failure wrapped with enough context for a consumer of the error-report
/// channel to log it or drive a retry strategy: its kind, the leg it belongs
/// to, whether it ends that leg, and the underlying cause.
#[derive(Debug)]
pub struct BridgeError {
    pub kind: ErrorKind,
    pub direction: Direction,
    pub fatal: bool,
    pub detail: String,
}

/// The mathematical image of a [`BridgeError`].
pub struct ErrView {
    pub kind: ErrorKind,
    pub direction: Direction,
    pub fatal: bool,
    pub detail: Seq<char>,
}

impl View for BridgeError {
    type V = ErrView;

    open spec fn view(&self) -> ErrView {
        ErrView {
            kind: self.kind,
            direction: self.direction,
            fatal: self.fatal,
            detail: self.detail@,
        }
    }
}

impl Clone for BridgeError {
    fn clone(&self) -> (r: BridgeError)
        ensures
            r@ == self@,
    {
        BridgeError {
            kind: self.kind,
            direction: self.direction,
            fatal: self.fatal,
            detail: self.detail.clone(),
        }
    }
}

impl BridgeError {
    /// A read failure on the source-to-core leg.
    pub fn read_failure(f: &IoFailure) -> (e: BridgeError)
        ensures
            e@ == (ErrView {
                kind: ErrorKind::ReadFailure,
                direction: Direction::IntoCore,
                fatal: f.fatal,
                detail: f@.detail,
            }),
    {
        BridgeError {
            kind: ErrorKind::ReadFailure,
            direction: Direction::IntoCore,
            fatal: f.fatal,
            detail: f.detail.clone(),
        }
    }

    /// A write failure on the core-to-sink leg.
    pub fn write_failure(f: &IoFailure) -> (e: BridgeError)
        ensures
            e@ == (ErrView {
                kind: ErrorKind::WriteFailure,
                direction: Direction::OutOfCore,
                fatal: f.fatal,
                detail: f@.detail,
            }),
    {
        BridgeError {
            kind: ErrorKind::WriteFailure,
            direction: Direction::OutOfCore,
            fatal: f.fatal,
            detail: f.detail.clone(),
        }
    }

    /// A closed channel end; it terminates the owning pump, so it is fatal.
    pub fn channel_closed(direction: Direction) -> (e: BridgeError)
        ensures
            e@ == (ErrView {
                kind: ErrorKind::ChannelClosed,
                direction: direction,
                fatal: true,
                detail: Seq::<char>::empty(),
            }),
    {
        BridgeError { kind: ErrorKind::ChannelClosed, direction, fatal: true, detail: String::new() }
    }

    /// A decode that produced more than one message under the strict policy;
    /// it is reported and the inbound pump goes on.
    pub fn decode_ambiguity(line: &str) -> (e: BridgeError)
        ensures
            e@ == (ErrView {
                kind: ErrorKind::DecodeAmbiguity,
                direction: Direction::IntoCore,
                fatal: false,
                detail: line@,
            }),
    {
        BridgeError {
            kind: ErrorKind::DecodeAmbiguity,
            direction: Direction::IntoCore,
            fatal: false,
            detail: line.to_owned(),
        }
    }
}

} // verus!
