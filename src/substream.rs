//! One logical channel handed out by a multiplexer.

use vstd::prelude::*;

verus! {

/// Which side opened a substream.
#[derive(Clone, Copy, Debug, PartialEq, Eq, Structural)]
pub enum Direction {
    Inbound,
    Outbound,
}

/// What a substream is: its native channel, the token under which its
/// multiplexer tracks it, who opened it, and whether it was closed.
pub struct SubstreamModel<C> {
    pub channel: C,
    pub token: usize,
    pub direction: Direction,
    pub closed: bool,
}

/// A freshly handed out, still open substream.
pub open spec fn fresh_substream<C>(channel: C, token: usize, direction: Direction) -> SubstreamModel<C> {
    SubstreamModel { channel, token, direction, closed: false }
}

/// A native channel together with its registration token. Reading and
/// writing go to the channel; the token is what the owner reports back to
/// the multiplexer when the substream goes away.
pub struct Substream<C> {
    channel: C,
    token: usize,
    direction: Direction,
    closed: bool,
}

impl<C> View for Substream<C> {
    type V = SubstreamModel<C>;

    closed spec fn view(&self) -> SubstreamModel<C> {
        SubstreamModel {
            channel: self.channel,
            token: self.token,
            direction: self.direction,
            closed: self.closed,
        }
    }
}

impl<C> Substream<C> {
    pub(crate) fn new(channel: C, token: usize, direction: Direction) -> (r: Self)
        ensures
            r@ == fresh_substream(channel, token, direction),
    {
        Substream { channel, token, direction, closed: false }
    }

    pub fn token(&self) -> (r: usize)
        ensures
            r == self@.token,
    {
        self.token
    }

    pub fn direction(&self) -> (r: Direction)
        ensures
            r == self@.direction,
    {
        self.direction
    }

    pub fn channel(&self) -> (r: &C)
        ensures
            *r == self@.channel,
    {
        &self.channel
    }

    pub fn is_closed(&self) -> (r: bool)
        ensures
            r == self@.closed,
    {
        self.closed
    }

    /// Marks the substream closed. Returns `true` only on the first call:
    /// that caller closes the native channel and reports the token.
    pub fn close(&mut self) -> (first: bool)
        ensures
            first == !old(self)@.closed,
            final(self)@ == (SubstreamModel { closed: true, ..old(self)@ }),
    {
        let first = !self.closed;
        self.closed = true;
        first
    }

    /// Gives up the substream, handing back its native channel.
    pub fn into_channel(self) -> (r: C)
        ensures
            r == self@.channel,
    {
        self.channel
    }
}

} // verus!
