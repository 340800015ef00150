//! The decisions of the correlation engine and the inbound event pipeline:
//! which pending request a reply resolves, which responses are events, and
//! the order in which events reach the caller.
use vstd::prelude::*;

use crate::common::Rect;
use crate::discriminator::Discriminator;
use crate::event::{resize_for, Event, EventVariant};
use crate::response::{Response, ResponseContent};

verus! {

broadcast use vstd::std_specs::hash::group_hash_axioms;

/// The entry label under which the layout service assigns a rectangle.
pub const LAYOUT_ALLOCATED: &'static str = "!layout-allocated-rect";

/// The entry label that confirms to the layout service that a frame was drawn.
pub const LAYOUT_CONFIRM: &'static str = "!layout-render-confirm";

/// The message tag of replies from a scroll component.
pub const SCROLL_RES: &'static str = "!scroll-response";

/// The message tag of requests to a scroll component.
pub const SCROLL_REQ: &'static str = "!scroll-request";

/// Requests awaiting their reply, each with the slot that the reply resolves.
pub struct PendingTable<T> {
    slots: std::collections::HashMap<u32, T>,
}

impl<T> View for PendingTable<T> {
    type V = Map<u32, T>;

    closed spec fn view(&self) -> Map<u32, T> {
        self.slots@
    }
}

impl<T> PendingTable<T> {
    pub fn new() -> (r: Self)
        ensures
            r@ == Map::<u32, T>::empty(),
    {
        PendingTable { slots: std::collections::HashMap::new() }
    }

    /// Registers the slot of the request `id`, before the request is sent.
    /// Returns the slot it replaces, if any.
    pub fn register(&mut self, id: u32, slot: T) -> (r: Option<T>)
        ensures
            final(self)@ == old(self)@.insert(id, slot),
            match r {
                Some(s) => old(self)@.contains_key(id) && s == old(self)@[id],
                None => !old(self)@.contains_key(id),
            },
    {
        self.slots.insert(id, slot)
    }

    /// Takes the slot that a reply to request `id` resolves. `None` where no
    /// request with that identifier is pending: the reply is dropped.
    pub fn resolve(&mut self, id: u32) -> (r: Option<T>)
        ensures
            final(self)@ == old(self)@.remove(id),
            match r {
                Some(s) => old(self)@.contains_key(id) && s == old(self)@[id],
                None => !old(self)@.contains_key(id),
            },
    {
        self.slots.remove(&id)
    }

    /// Takes every pending slot, leaving none: for resolving the waiting
    /// callers when the client shuts down.
    pub fn take_all(&mut self) -> (r: std::collections::HashMap<u32, T>)
        ensures
            r@ == old(self)@,
            final(self)@ == Map::<u32, T>::empty(),
    {
        let mut slots = std::collections::HashMap::new();
        core::mem::swap(&mut self.slots, &mut slots);
        slots
    }

    /// Whether a request with identifier `id` is pending.
    pub fn is_pending(&self, id: u32) -> (r: bool)
        ensures
            r == self@.contains_key(id),
    {
        self.slots.contains_key(&id)
    }

    /// The number of pending requests.
    pub fn len(&self) -> (r: usize)
        ensures
            r == self@.len(),
    {
        self.slots.len()
    }
}

/// Where a response goes.
pub enum Routed {
    /// An event, for the caller's event stream.
    Event(Event),
    /// A reply to the request with this identifier.
    Reply { request: u32, content: ResponseContent },
    /// A reply that names no request: nothing can wait for it.
    Unroutable,
}

/// Sorts a response: events become events carrying the response's own
/// identifier as their acknowledgement token (confirming to `confirm_to`'s
/// layout service, where one is given); anything else is a reply to the
/// request it names.
pub fn route(res: Response, confirm_to: Option<Discriminator>) -> (r: Routed)
    ensures
        match res.content {
            ResponseContent::Event { content } => r matches Routed::Event(e) && e.content()
                == content && e.token() == res.id && !e.resolved() && e.confirm_to()
                == confirm_to,
            _ => match res.request {
                Some(id) => r == (Routed::Reply { request: id, content: res.content }),
                None => r is Unroutable,
            },
        },
{
    match res.content {
        ResponseContent::Event { content } => match confirm_to {
            Some(to) => Routed::Event(Event::layouted(content, res.id, to)),
            None => Routed::Event(Event::new(content, res.id)),
        },
        content => match res.request {
            Some(id) => Routed::Reply { request: id, content },
            None => Routed::Unroutable,
        },
    }
}

/// What the listener does with an event before the caller sees it.
#[derive(Clone, Copy, PartialEq, Eq, Structural, Debug)]
pub enum Intake {
    /// Hand it to the caller.
    Deliver,
    /// Acknowledge it at once, letting it pass, and drop it.
    Skip,
    /// A new assigned rectangle: take it, and hand the caller a resize.
    Allocation,
    /// A reply from a scroll component, for the request waiting on it.
    ScrollReply,
}

/// The text of a string constant.
pub open spec fn text(s: &str) -> Seq<char> {
    s@
}

/// Decides what the listener does with an event. Where a layout service
/// assigns the component's area, raw screen resizes are skipped and
/// allocations of the area are taken; replies from scroll components go to
/// their waiting request.
pub fn intake(e: &EventVariant, layouted: bool) -> (r: Intake)
    ensures
        r == (match *e {
            EventVariant::Message { tag, .. } => if tag@ == text(SCROLL_RES) {
                Intake::ScrollReply
            } else {
                Intake::Deliver
            },
            EventVariant::ValueUpdated { label, .. } => if layouted && label@ == text(
                LAYOUT_ALLOCATED,
            ) {
                Intake::Allocation
            } else {
                Intake::Deliver
            },
            EventVariant::Resize { .. } => if layouted {
                Intake::Skip
            } else {
                Intake::Deliver
            },
            _ => Intake::Deliver,
        }),
{
    match e {
        EventVariant::Message { tag, .. } => {
            let scroll = SCROLL_RES.to_owned();
            if *tag == scroll {
                Intake::ScrollReply
            } else {
                Intake::Deliver
            }
        },
        EventVariant::ValueUpdated { label, .. } => {
            let allocated = LAYOUT_ALLOCATED.to_owned();
            if layouted && *label == allocated {
                Intake::Allocation
            } else {
                Intake::Deliver
            }
        },
        EventVariant::Resize { .. } => {
            if layouted {
                Intake::Skip
            } else {
                Intake::Deliver
            }
        },
        _ => Intake::Deliver,
    }
}

/// Where an event goes after the listener's checks.
pub enum Admission {
    /// To the caller.
    Deliver(Event),
    /// Nowhere: it is released at once, letting it pass.
    Release(Event),
}

/// Finishes the listener's handling of an event, given the decision of
/// `intake`, the rectangle read from an allocation (if it could be read),
/// and whether a scroll reply could be read. Returns where the event goes
/// and the newly assigned rectangle, if any. An allocation that was read
/// becomes a resize to the new rectangle's size; one that could not be read
/// is released, and so is a scroll reply that could not be read.
pub fn settle(event: Event, decision: Intake, allocated: Option<Rect>, scroll_reply_read: bool) -> (r: (
    Admission,
    Option<Rect>,
))
    ensures
        match decision {
            Intake::Deliver => r == (Admission::Deliver(event), None::<Rect>),
            Intake::Skip => r == (Admission::Release(event), None::<Rect>),
            Intake::Allocation => match allocated {
                Some(rect) => {
                    &&& r.1 == Some(rect)
                    &&& r.0 matches Admission::Deliver(e)
                    &&& e.content() == (EventVariant::Resize { width: rect.width, height: rect.height })
                    &&& e.token() == event.token()
                    &&& e.resolved() == event.resolved()
                    &&& e.confirm_to() == event.confirm_to()
                },
                None => r == (Admission::Release(event), None::<Rect>),
            },
            Intake::ScrollReply => if scroll_reply_read {
                r == (Admission::Deliver(event), None::<Rect>)
            } else {
                r == (Admission::Release(event), None::<Rect>)
            },
        },
{
    match decision {
        Intake::Deliver => (Admission::Deliver(event), None),
        Intake::Skip => (Admission::Release(event), None),
        Intake::Allocation => match allocated {
            Some(rect) => (Admission::Deliver(event.with_content(resize_for(rect))), Some(rect)),
            None => (Admission::Release(event), None),
        },
        Intake::ScrollReply => if scroll_reply_read {
            (Admission::Deliver(event), None)
        } else {
            (Admission::Release(event), None)
        },
    }
}

/// Events waiting for the caller, in the order they were read.
///
/// A std queue stands where a channel could: the listener pushes and the
/// caller pops under one short lock, and the order it keeps is what this
/// type states and proves.
pub struct EventQueue<T> {
    items: std::collections::VecDeque<T>,
}

impl<T> View for EventQueue<T> {
    type V = Seq<T>;

    closed spec fn view(&self) -> Seq<T> {
        self.items@
    }
}

impl<T> EventQueue<T> {
    pub fn new() -> (r: Self)
        ensures
            r@ == Seq::<T>::empty(),
    {
        EventQueue { items: std::collections::VecDeque::new() }
    }

    /// Adds an event behind those already waiting.
    pub fn push(&mut self, item: T)
        ensures
            final(self)@ == old(self)@.push(item),
    {
        self.items.push_back(item);
    }

    /// Takes the event that has waited longest.
    pub fn pop(&mut self) -> (r: Option<T>)
        ensures
            old(self)@.len() == 0 ==> r is None && final(self)@ == old(self)@,
            old(self)@.len() > 0 ==> r == Some(old(self)@[0]) && final(self)@ == old(self)@.drop_first(),
    {
        self.items.pop_front()
    }

    pub fn len(&self) -> (r: usize)
        ensures
            r == self@.len(),
    {
        self.items.len()
    }

    pub fn is_empty(&self) -> (r: bool)
        ensures
            r == (self@.len() == 0),
    {
        self.items.len() == 0
    }
}

/// Events leave in the order they arrived: a pop after a push takes the
/// oldest waiting item, which is the pushed one only where nothing else was
/// waiting; and on a non-empty queue, pushing then popping leaves what
/// popping then pushing leaves.
pub proof fn lemma_queue_fifo<T>(waiting: Seq<T>, item: T)
    ensures
        waiting.push(item)[0] == (if waiting.len() == 0 {
            item
        } else {
            waiting[0]
        }),
        waiting.len() > 0 ==> waiting.push(item).drop_first() == waiting.drop_first().push(item),
{
    if waiting.len() > 0 {
        assert(waiting.push(item).drop_first() =~= waiting.drop_first().push(item));
    }
}

} // verus!
