//! The connection multiplexer: a state machine over one connection.

use vstd::prelude::*;
use crate::bridge::{poll_model, publish_model, Bridge, BridgeModel};
use crate::registry::{drain_model, has_live, live_count, register_model, signal_model, DropRegistry, Entry};
use crate::substream::{fresh_substream, Direction, Substream};

verus! {

/// Lifecycle of the connection. No transition leaves `Closed`.
#[derive(Clone, Copy, Debug, PartialEq, Eq, Structural)]
pub enum Phase {
    Open,
    /// The connection handle is being released.
    Closing,
    Closed,
}

/// Why an operation on the multiplexer failed.
#[derive(Clone, Debug, PartialEq, Eq)]
pub enum ConnectionError {
    /// The multiplexer was closed; it cannot be used again.
    Closed,
    /// The native channel could not be created.
    CreationFailed,
    /// A failure reported by the native connection.
    Underlying(String),
}

/// What the driver must do after asking to close.
#[derive(Clone, Copy, Debug, PartialEq, Eq, Structural)]
pub enum CloseStep {
    /// Release the connection handle now, then report the outcome.
    Release,
    /// The handle is being released by an earlier request.
    InProgress,
    /// Already closed: nothing to do.
    Done,
}

/// A lifecycle event that is not a substream.
#[derive(Clone, Copy, Debug, PartialEq, Eq, Structural)]
pub enum MuxerEvent {
    /// Every substream handed out so far has been destroyed.
    Idle,
}

/// The whole state of a multiplexer.
pub struct MuxModel<C, W> {
    pub phase: Phase,
    pub inbound: BridgeModel<C, W>,
    pub entries: Seq<Entry>,
    pub idle_waiter: Option<W>,
    /// A substream was handed out since the last idle event.
    pub busy: bool,
}

/// A fresh multiplexer over an open connection.
pub open spec fn initial_model<C, W>() -> MuxModel<C, W> {
    MuxModel {
        phase: Phase::Open,
        inbound: BridgeModel { slot: None, waiter: None },
        entries: Seq::empty(),
        idle_waiter: None,
        busy: false,
    }
}

/// Handing out one more substream.
pub open spec fn open_model<C, W>(m: MuxModel<C, W>) -> MuxModel<C, W> {
    MuxModel { entries: register_model(m.entries), busy: true, ..m }
}

/// Polling for an inbound substream on an open connection: the new state
/// and the native channel that arrived, if one did.
pub open spec fn inbound_model<C, W>(m: MuxModel<C, W>, waker: W) -> (MuxModel<C, W>, Option<C>) {
    let (b, got) = poll_model(m.inbound, waker);
    match got {
        Some(c) => (MuxModel { inbound: b, ..open_model(m) }, Some(c)),
        None => (MuxModel { inbound: b, ..m }, None),
    }
}

/// Asking to close.
pub open spec fn close_model<C, W>(m: MuxModel<C, W>) -> (MuxModel<C, W>, CloseStep) {
    match m.phase {
        Phase::Open => (MuxModel { phase: Phase::Closing, ..m }, CloseStep::Release),
        Phase::Closing => (m, CloseStep::InProgress),
        Phase::Closed => (m, CloseStep::Done),
    }
}

/// The substream of `token` was destroyed: a live token is signalled, and
/// when it was the last live one the idle waiter is handed back to be woken.
pub open spec fn dropped_model<C, W>(m: MuxModel<C, W>, token: usize) -> (MuxModel<C, W>, Option<W>) {
    if token < m.entries.len() && m.entries[token as int] == Entry::Live {
        let e = signal_model(m.entries, token);
        if has_live(e) {
            (MuxModel { entries: e, ..m }, None)
        } else {
            (MuxModel { entries: e, idle_waiter: None, ..m }, m.idle_waiter)
        }
    } else {
        (m, None)
    }
}

/// Polling for lifecycle events: drain the destruction signals, then
/// report idleness once per transition to no live substreams.
pub open spec fn event_model<C, W>(m: MuxModel<C, W>, waker: W) -> (MuxModel<C, W>, Option<MuxerEvent>) {
    let e = drain_model(m.entries);
    if live_count(e) == 0 && m.busy {
        (MuxModel { entries: e, busy: false, idle_waiter: None, ..m }, Some(MuxerEvent::Idle))
    } else {
        (MuxModel { entries: e, idle_waiter: Some(waker), ..m }, None)
    }
}

/// Multiplexes substreams over one connection whose inbound channels are
/// announced by a callback. `C` is the native channel, `W` the waker of the
/// driving task.
pub struct Multiplexer<C, W> {
    phase: Phase,
    inbound: Bridge<C, W>,
    registry: DropRegistry,
    idle_waiter: Option<W>,
    busy: bool,
}

impl<C, W> View for Multiplexer<C, W> {
    type V = MuxModel<C, W>;

    closed spec fn view(&self) -> MuxModel<C, W> {
        MuxModel {
            phase: self.phase,
            inbound: self.inbound@,
            entries: self.registry@,
            idle_waiter: self.idle_waiter,
            busy: self.busy,
        }
    }
}

impl<C, W> Multiplexer<C, W> {
    pub closed spec fn wf(&self) -> bool {
        self.registry.wf()
    }

    /// A multiplexer over a connection that was just handed over. Its
    /// inbound bridge is armed at once, so that an arrival is kept even
    /// before anyone polls.
    pub fn new() -> (r: Self)
        ensures
            r.wf(),
            r@ == initial_model::<C, W>(),
    {
        Multiplexer {
            phase: Phase::Open,
            inbound: Bridge::new(),
            registry: DropRegistry::new(),
            idle_waiter: None,
            busy: false,
        }
    }

    pub fn phase(&self) -> (r: Phase)
        ensures
            r == self@.phase,
    {
        self.phase
    }

    /// Number of substreams handed out whose destruction has not been
    /// observed yet.
    pub fn outstanding(&self) -> (r: usize)
        requires
            self.wf(),
        ensures
            r == live_count(self@.entries),
    {
        self.registry.len()
    }

    /// Called from the arrival callback with the channel that arrived. On
    /// success the caller wakes the returned waker, if any; a second
    /// arrival before the first was polled is refused and handed back.
    pub fn publish_inbound(&mut self, channel: C) -> (r: Result<Option<W>, C>)
        ensures
            final(self).wf() == old(self).wf(),
            final(self)@ == (MuxModel { inbound: publish_model(old(self)@.inbound, channel).0, ..old(self)@ }),
            r == publish_model(old(self)@.inbound, channel).1,
    {
        self.inbound.publish(channel)
    }

    /// The next inbound substream, or `None` after recording `waker` to be
    /// woken by the next arrival. Fails once closing has begun.
    pub fn poll_inbound(&mut self, waker: W) -> (r: Option<Result<Substream<C>, ConnectionError>>)
        requires
            old(self).wf(),
            old(self)@.entries.len() < usize::MAX,
        ensures
            final(self).wf(),
            old(self)@.phase != Phase::Open ==> r == Some(Err::<Substream<C>, _>(ConnectionError::Closed))
                && final(self)@ == old(self)@,
            old(self)@.phase == Phase::Open ==> final(self)@ == inbound_model(old(self)@, waker).0,
            old(self)@.phase == Phase::Open ==> match inbound_model(old(self)@, waker).1 {
                None => r is None,
                Some(c) => match r {
                    Some(Ok(s)) => s@ == fresh_substream(c, old(self)@.entries.len() as usize, Direction::Inbound),
                    _ => false,
                },
            },
    {
        match self.phase {
            Phase::Open => {},
            _ => {
                return Some(Err(ConnectionError::Closed));
            },
        }
        match self.inbound.poll(waker) {
            None => None,
            Some(c) => {
                let token = self.registry.register();
                self.busy = true;
                Some(Ok(Substream::new(c, token, Direction::Inbound)))
            },
        }
    }

    /// Opens an outbound substream over a channel made by `create`, which is
    /// called only while the connection is open; `None` from it means the
    /// channel could not be made.
    pub fn poll_outbound<F: FnOnce() -> Option<C>>(&mut self, create: F) -> (r: Result<Substream<C>, ConnectionError>)
        requires
            old(self).wf(),
            old(self)@.entries.len() < usize::MAX,
            create.requires(()),
        ensures
            final(self).wf(),
            old(self)@.phase != Phase::Open ==> r == Err::<Substream<C>, _>(ConnectionError::Closed)
                && final(self)@ == old(self)@,
            old(self)@.phase == Phase::Open ==> match r {
                Ok(s) => create.ensures((), Some(s@.channel))
                    && s@ == fresh_substream(s@.channel, old(self)@.entries.len() as usize, Direction::Outbound)
                    && final(self)@ == open_model(old(self)@),
                Err(e) => create.ensures((), None) && e == ConnectionError::CreationFailed
                    && final(self)@ == old(self)@,
            },
    {
        match self.phase {
            Phase::Open => {},
            _ => {
                return Err(ConnectionError::Closed);
            },
        }
        match create() {
            None => Err(ConnectionError::CreationFailed),
            Some(c) => {
                let token = self.registry.register();
                self.busy = true;
                Ok(Substream::new(c, token, Direction::Outbound))
            },
        }
    }

    /// Asks to close. Only the first request on an open connection answers
    /// `Release`: the caller then releases the handle and reports the
    /// outcome through `finish_close`.
    pub fn poll_close(&mut self) -> (r: CloseStep)
        ensures
            final(self).wf() == old(self).wf(),
            (final(self)@, r) == close_model(old(self)@),
    {
        match self.phase {
            Phase::Open => {
                self.phase = Phase::Closing;
                CloseStep::Release
            },
            Phase::Closing => CloseStep::InProgress,
            Phase::Closed => CloseStep::Done,
        }
    }

    /// Records how releasing the handle went. The connection is closed
    /// either way; a failure is passed on.
    pub fn finish_close(&mut self, outcome: Result<(), String>) -> (r: Result<(), ConnectionError>)
        requires
            old(self)@.phase == Phase::Closing,
        ensures
            final(self).wf() == old(self).wf(),
            final(self)@ == (MuxModel { phase: Phase::Closed, ..old(self)@ }),
            r == match outcome {
                Ok(()) => Ok::<(), ConnectionError>(()),
                Err(msg) => Err(ConnectionError::Underlying(msg)),
            },
    {
        self.phase = Phase::Closed;
        match outcome {
            Ok(()) => Ok(()),
            Err(msg) => Err(ConnectionError::Underlying(msg)),
        }
    }

    /// Reports that the substream of `token` was destroyed. When no live
    /// substream is left, the caller wakes the returned waker, if any.
    /// Reporting a token twice, or one never handed out, changes nothing.
    pub fn substream_dropped(&mut self, token: usize) -> (r: Option<W>)
        requires
            old(self).wf(),
        ensures
            final(self).wf(),
            (final(self)@, r) == dropped_model(old(self)@, token),
    {
        if self.registry.signal(token) && !self.registry.any_live() {
            self.idle_waiter.take()
        } else {
            None
        }
    }

    /// Polls for lifecycle events: `Idle` once each time the last live
    /// substream is gone, else `None` after recording `waker`.
    pub fn poll(&mut self, waker: W) -> (r: Option<MuxerEvent>)
        requires
            old(self).wf(),
        ensures
            final(self).wf(),
            (final(self)@, r) == event_model(old(self)@, waker),
    {
        self.registry.drain();
        if self.registry.len() == 0 && self.busy {
            self.busy = false;
            self.idle_waiter = None;
            Some(MuxerEvent::Idle)
        } else {
            self.idle_waiter = Some(waker);
            None
        }
    }
}

} // verus!
