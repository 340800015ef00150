//! Scoped suppression of a channel.
use vstd::prelude::*;

use crate::discriminator::Discriminator;
use crate::request::{Request, RequestContent, RequestIds};
use crate::response::{ResponseContent, ResponseSuccess};
use crate::subscription::Subscription;

verus! {

/// A live suppression of a channel. Lifting it, explicitly or when the
/// handle is discarded, issues the unsuppress request once; later attempts
/// issue nothing.
pub struct LifetimeSuppressor {
    id: u32,
    channel: Subscription,
    target: Discriminator,
    live: bool,
}

/// The request that lifts suppression `id` of `channel` at `target`.
pub open spec fn lifting(id: u32, channel: Subscription) -> RequestContent {
    RequestContent::Unsuppress { channel, id }
}

/// One attempt to lift a suppression, from `before` to `after`: the first
/// sends the unsuppress request, any later one sends nothing.
pub open spec fn lift_step(
    before: LifetimeSuppressor,
    after: LifetimeSuppressor,
    sent: Option<Request>,
) -> bool {
    &&& !after.live()
    &&& after.id() == before.id()
    &&& match sent {
        Some(req) => before.live() && req.content == lifting(before.id(), before.channel())
            && req.target@ == before.target()@,
        None => !before.live(),
    }
}

impl LifetimeSuppressor {
    /// The suppression's identifier.
    pub closed spec fn id(self) -> u32 {
        self.id
    }

    /// The suppressed channel.
    pub closed spec fn channel(self) -> Subscription {
        self.channel
    }

    /// Where the suppression was placed.
    pub closed spec fn target(self) -> Discriminator {
        self.target
    }

    /// Whether the suppression has not been lifted yet.
    pub closed spec fn live(self) -> bool {
        self.live
    }

    pub fn new(id: u32, channel: Subscription, target: Discriminator) -> (r: Self)
        ensures
            r.id() == id,
            r.channel() == channel,
            r.target() == target,
            r.live(),
    {
        LifetimeSuppressor { id, channel, target, live: true }
    }

    /// The handle for the host's answer to a suppress request: a live one
    /// where the host suppressed the channel, nothing otherwise.
    pub fn from_response(content: &ResponseContent, channel: Subscription, target: Discriminator) -> (r:
        Option<Self>)
        ensures
            match *content {
                ResponseContent::Success { content: ResponseSuccess::Suppressed { id } } => r
                    matches Some(s) && s.id() == id && s.channel() == channel && s.target()
                    == target && s.live(),
                _ => r is None,
            },
    {
        match content.as_suppressed() {
            Some(id) => Some(LifetimeSuppressor::new(id, channel, target)),
            None => None,
        }
    }

    /// Whether the suppression has not been lifted yet.
    pub fn is_live(&self) -> (r: bool)
        ensures
            r == self.live(),
    {
        self.live
    }

    /// Lifts the suppression: the unsuppress request the first time, and
    /// nothing afterwards. Discarding the handle does this.
    pub fn release(&mut self, ids: &mut RequestIds) -> (r: Option<Request>)
        requires
            old(self).live() ==> old(ids).last_issued() < u32::MAX,
        ensures
            lift_step(*old(self), *final(self), r),
            match r {
                Some(req) => {
                    &&& req.id == old(ids).last_issued() + 1
                    &&& !old(ids).issued().contains(req.id)
                    &&& final(ids).issued() == old(ids).issued().insert(req.id)
                    &&& final(ids).last_issued() == req.id
                },
                None => *final(ids) == *old(ids),
            },
    {
        if !self.live {
            return None;
        }
        let mut channel = Subscription::Everything;
        core::mem::swap(&mut self.channel, &mut channel);
        let target = self.target.clone();
        self.live = false;
        Some(Request::new(target, RequestContent::Unsuppress { channel, id: self.id }, ids))
    }

    /// Takes the suppression's identifier, channel and target out of a live
    /// handle, which is then spent: lifting it is left to the caller.
    pub fn deconstruct(&mut self) -> (r: Option<(u32, Subscription, Discriminator)>)
        ensures
            !final(self).live(),
            final(self).id() == old(self).id(),
            match r {
                Some(t) => old(self).live() && t.0 == old(self).id() && t.1 == old(self).channel()
                    && t.2@ == old(self).target()@,
                None => !old(self).live(),
            },
    {
        if !self.live {
            return None;
        }
        let mut channel = Subscription::Everything;
        core::mem::swap(&mut self.channel, &mut channel);
        self.live = false;
        Some((self.id, channel, self.target.clone()))
    }
}

/// A suppression placed by a successful suppress request issues exactly one
/// unsuppress request, for that suppression, however many times lifting is
/// attempted before its scope ends.
pub proof fn lemma_suppression_lifted_once(
    content: ResponseContent,
    channel: Subscription,
    target: Discriminator,
    s0: LifetimeSuppressor,
    s1: LifetimeSuppressor,
    r1: Option<Request>,
    s2: LifetimeSuppressor,
    r2: Option<Request>,
)
    requires
        content matches ResponseContent::Success { content: ResponseSuccess::Suppressed { id } }
            && s0.id() == id && s0.channel() == channel && s0.target() == target && s0.live(),
        lift_step(s0, s1, r1),
        lift_step(s1, s2, r2),
    ensures
        r1 matches Some(req) && req.content == lifting(s0.id(), channel) && req.target@ == target@,
        r2 is None,
{
}

} // verus!
