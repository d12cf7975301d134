//! The write loop as a state machine: each event from the store or the stream
//! gives the next state and the action to perform.

use vstd::prelude::*;

use crate::command::{key_bytes, record_command, CommandModel, Record, StoreCommand};
use crate::sink::{RedisSink, SinkError};

verus! {

/// Where the write loop stands.
#[derive(Clone, Copy, Debug, PartialEq, Eq, Structural)]
pub enum Phase {
    /// No connection to the store yet.
    Unconnected,
    /// Connected, waiting for the next record.
    Connected,
    /// A write was issued and its outcome is awaited.
    Writing,
    /// Stopped by a failed connection or write.
    Failed,
    /// Stopped because the stream ended.
    Closed,
}

/// Whether no event is accepted any more.
pub open spec fn is_terminal(p: Phase) -> bool {
    p == Phase::Failed || p == Phase::Closed
}

/// What the loop is to do next.
#[derive(Debug)]
pub enum Action {
    /// Take the next record from the stream.
    ReadNext,
    /// Send this command to the store, and report its outcome.
    Write(StoreCommand),
    /// Stop, with this outcome.
    Stop(Result<(), SinkError>),
}

/// The write loop of one sink: it owns the sink and follows one connection.
pub struct WriteSession {
    pub sink: RedisSink,
    pub phase: Phase,
    /// The command that awaits its outcome, while writing.
    pub pending: Ghost<CommandModel>,
    /// The commands that the store has acknowledged, in the order they were issued.
    pub written: Ghost<Seq<CommandModel>>,
}

impl WriteSession {
    /// A session that has not connected yet.
    pub fn new(sink: RedisSink) -> (r: WriteSession)
        ensures
            r.sink == sink,
            r.phase == Phase::Unconnected,
            r.written@ == Seq::<CommandModel>::empty(),
    {
        WriteSession {
            sink,
            phase: Phase::Unconnected,
            pending: Ghost(arbitrary()),
            written: Ghost(Seq::empty()),
        }
    }

    pub fn phase(&self) -> (r: Phase)
        ensures
            r == self.phase,
    {
        self.phase
    }

    /// The connection was opened, or failed: without it no record is read.
    pub fn on_connect(&mut self, connected: bool) -> (a: Action)
        requires
            old(self).phase == Phase::Unconnected,
        ensures
            final(self).sink == old(self).sink,
            a is Stop <==> is_terminal(final(self).phase),
            final(self).written == old(self).written,
            connected ==> final(self).phase == Phase::Connected && a is ReadNext,
            !connected ==> final(self).phase == Phase::Failed && a == Action::Stop(
                Err(SinkError::Connection),
            ),
    {
        if connected {
            self.phase = Phase::Connected;
            Action::ReadNext
        } else {
            self.phase = Phase::Failed;
            Action::Stop(Err(SinkError::Connection))
        }
    }

    /// A record arrived: it becomes exactly one command, to be written before the
    /// next record is taken.
    pub fn on_record(&mut self, record: &Record) -> (a: Action)
        requires
            old(self).phase == Phase::Connected,
        ensures
            final(self).sink == old(self).sink,
            a is Stop <==> is_terminal(final(self).phase),
            final(self).written == old(self).written,
            final(self).phase == Phase::Writing,
            final(self).pending@ == record_command(
                old(self).sink.prefix@,
                old(self).sink.to_hash,
                key_bytes(record),
                record.value@,
                record.timestamp as int,
            ),
            a matches Action::Write(c) && c@ == final(self).pending@,
    {
        let c = self.sink.command_for(record);
        self.pending = Ghost(c@);
        self.phase = Phase::Writing;
        Action::Write(c)
    }

    /// The pending write succeeded or failed. A failure stops the loop for good:
    /// no later record is attempted.
    pub fn on_write_result(&mut self, ok: bool) -> (a: Action)
        requires
            old(self).phase == Phase::Writing,
        ensures
            final(self).sink == old(self).sink,
            a is Stop <==> is_terminal(final(self).phase),
            ok ==> final(self).phase == Phase::Connected && a is ReadNext
                && final(self).written@ == old(self).written@.push(old(self).pending@),
            !ok ==> final(self).phase == Phase::Failed && a == Action::Stop(
                Err(SinkError::Write),
            ) && final(self).written == old(self).written,
    {
        if ok {
            self.written = Ghost(self.written@.push(self.pending@));
            self.phase = Phase::Connected;
            Action::ReadNext
        } else {
            self.phase = Phase::Failed;
            Action::Stop(Err(SinkError::Write))
        }
    }

    /// The stream ended while no write was pending.
    pub fn on_stream_end(&mut self) -> (a: Action)
        requires
            old(self).phase == Phase::Connected,
        ensures
            final(self).sink == old(self).sink,
            a is Stop <==> is_terminal(final(self).phase),
            final(self).written == old(self).written,
            final(self).phase == Phase::Closed,
            a == Action::Stop(Ok(())),
    {
        self.phase = Phase::Closed;
        Action::Stop(Ok(()))
    }
}

} // verus!
